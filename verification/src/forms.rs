//! The password-strength rule and its error signaling: a password must be
//! at least eight bytes long and contain an ASCII uppercase letter, an ASCII
//! lowercase letter, and an ASCII digit, judged on its UTF-8 bytes. The
//! rules are checked in that order, and the lowercase rule signals with the
//! same message text as the uppercase rule.

use crate::error::Error;
use vstd::prelude::*;
use vstd::string::StringExecFns;
use vstd::string::StringSliceAdditionalSpecFns;

verus! {

/// Some byte falls in the inclusive range.
pub open spec fn has_byte_between(s: Seq<u8>, lo: u8, hi: u8) -> bool {
    exists|i: int| 0 <= i < s.len() && lo <= #[trigger] s[i] && s[i] <= hi
}

/// A byte sequence that passes every password rule.
pub open spec fn secure_bytes(s: Seq<u8>) -> bool {
    s.len() >= 8 && has_byte_between(s, 65, 90) && has_byte_between(s, 97, 122)
        && has_byte_between(s, 48, 57)
}

/// Whether a range of bytes occurs, with a witness index when it does.
fn scan_byte_between(bytes: &[u8], lo: u8, hi: u8) -> (r: bool)
    ensures
        r == has_byte_between(bytes@, lo, hi),
{
    let mut i: usize = 0;
    while i < bytes.len()
        invariant
            i <= bytes@.len(),
            forall|k: int| 0 <= k < i ==> !(lo <= #[trigger] bytes@[k] && bytes@[k] <= hi),
        decreases bytes@.len() - i,
    {
        let b = bytes[i];
        if lo <= b && b <= hi {
            return true;
        }
        i = i + 1;
    }
    false
}

/// Check the password rules in order and signal the first failure as a
/// form-validation error carrying the rule's message.
pub fn is_secure(password: &str) -> (r: Result<(), Error>)
    ensures
        ({
            let bytes = password.spec_bytes();
            match r {
                Ok(()) => secure_bytes(bytes),
                Err(e) => e matches Error::FormValidationError(msg) && ((bytes.len() < 8 && msg@
                    == "The password must be at least 8 characters long.\n"@) || (bytes.len() >= 8
                    && !has_byte_between(bytes, 65, 90) && msg@
                    == "The password must include least one uppercase character.\n"@) || (
                bytes.len() >= 8 && has_byte_between(bytes, 65, 90) && !has_byte_between(
                    bytes,
                    97,
                    122,
                ) && msg@ == "The password must include least one uppercase character.\n"@) || (
                bytes.len() >= 8 && has_byte_between(bytes, 65, 90) && has_byte_between(
                    bytes,
                    97,
                    122,
                ) && !has_byte_between(bytes, 48, 57) && msg@
                    == "The password has to contain at least one digit.\n"@)),
            }
        }),
{
    let bytes = password.as_bytes();
    if bytes.len() < 8 {
        return Err(
            Error::FormValidationError(
                String::from_str("The password must be at least 8 characters long.\n"),
            ),
        );
    }
    if !scan_byte_between(bytes, 65, 90) {
        return Err(
            Error::FormValidationError(
                String::from_str("The password must include least one uppercase character.\n"),
            ),
        );
    }
    if !scan_byte_between(bytes, 97, 122) {
        return Err(
            Error::FormValidationError(
                String::from_str("The password must include least one uppercase character.\n"),
            ),
        );
    }
    if !scan_byte_between(bytes, 48, 57) {
        return Err(
            Error::FormValidationError(
                String::from_str("The password has to contain at least one digit.\n"),
            ),
        );
    }
    Ok(())
}

} // verus!
