//! The closed error taxonomy shared by every storage backend, its mapping to
//! protocol status codes, the user-facing message policy, and the binary
//! error payload returned at the system boundary.

use vstd::prelude::*;
use vstd::string::StringExecFns;
use vstd::string::StringSliceAdditionalSpecFns;
use vstd::utf8::encode_utf8;
use vstd::utf8::is_ascii_chars;
use vstd::utf8::is_ascii_chars_encode_utf8;

verus! {

/// One kind of failure that the persistence and session layer can surface.
///
/// Domain kinds (a missing user, a duplicate email, a rejected credential)
/// are raised by the logic consuming this layer; infrastructure kinds wrap a
/// lower-level fault and carry the driver's message for diagnostics, which is
/// never shown verbatim to end users in release builds.
#[derive(Debug, Clone, PartialEq, Eq)]
pub enum Error {
    /// An email address that does not parse as one.
    InvalidEmailAddressError,
    /// The lock guarding a non-concurrency-safe backend was left unusable by
    /// a holder that failed irrecoverably mid-operation.
    MutexPoisonError,
    /// A native value could not be converted to the expected Rust type.
    TypeConversionError,
    /// No user matches the given identifier.
    UserNotFoundError,
    /// The store handle was not installed in the host application's state.
    UnmanagedStateError,
    /// The caller is not authenticated.
    UnauthenticatedError,
    /// No user is registered under the carried email address.
    EmailDoesNotExist(String),
    /// A record with the same email address already exists.
    EmailAlreadyExists,
    /// The credentials were rejected.
    UnauthorizedError,
    /// A single form-field rule failed; carries the rule's code.
    FormValidationError(String),
    /// Several form-field rules failed; carries their codes.
    FormValidationErrors(Vec<String>),
    /// A fault reported by a pooled SQL driver; carries its message.
    SqlxError(String),
    /// A fault reported by the credential-hashing routine; carries its message.
    Argon2ParsingError(String),
    /// A fault reported by the embedded SQL driver; carries its message.
    RusqliteError(String),
    /// A fault reported by the session-store backend; carries its message.
    RedisError(String),
    /// A value could not be serialized or deserialized; carries the message.
    SerdeError(String),
    /// A low-level input/output fault; carries its message.
    IOError(String),
}

/// The protocol status code that each error kind maps to.
pub open spec fn status_of(e: Error) -> u16 {
    match e {
        Error::UserNotFoundError | Error::EmailDoesNotExist(_) => 404,
        Error::EmailAlreadyExists => 409,
        Error::InvalidEmailAddressError
        | Error::FormValidationError(_)
        | Error::FormValidationErrors(_) => 400,
        Error::UnauthorizedError | Error::UnauthenticatedError => 401,
        _ => 500,
    }
}

/// The concatenation of the first `n` code strings.
pub open spec fn concat_prefix(codes: Seq<Seq<char>>, n: int) -> Seq<char>
    decreases n,
{
    if n <= 0 {
        Seq::empty()
    } else {
        concat_prefix(codes, n - 1) + codes[n - 1]
    }
}

/// The concatenation of all code strings, in order.
pub open spec fn concat_codes(codes: Seq<Seq<char>>) -> Seq<char> {
    concat_prefix(codes, codes.len() as int)
}

/// The user-facing message of each error kind. Domain kinds show their exact
/// message; form-validation kinds show the concatenated field rule codes;
/// infrastructure kinds show their full detail only when `debug` holds and a
/// generic `"undefined"` otherwise.
pub open spec fn message_view(e: Error, debug: bool) -> Seq<char> {
    match e {
        Error::InvalidEmailAddressError => "That is not a valid email address."@,
        Error::EmailAlreadyExists => "That email address already exists. Try logging in."@,
        Error::UnauthorizedError => "Incorrect email or password"@,
        Error::UserNotFoundError => "Could not find any user that fits the specified requirements."@,
        Error::EmailDoesNotExist(email) => "The email \""@ + email@
            + "\" is not registered. Try signing up first."@,
        Error::FormValidationError(code) => code@,
        Error::FormValidationErrors(codes) => concat_codes(codes.deep_view()),
        Error::SqlxError(cause) => if debug { "SqlxError: "@ + cause@ } else { "undefined"@ },
        Error::RusqliteError(cause) => if debug { "RusqliteError: "@ + cause@ } else { "undefined"@ },
        Error::IOError(cause) => if debug { "IOError: "@ + cause@ } else { "undefined"@ },
        Error::SerdeError(cause) => if debug { "SerdeError: "@ + cause@ } else { "undefined"@ },
        Error::Argon2ParsingError(cause) => if debug {
            "Argon2ParsingError: "@ + cause@
        } else {
            "undefined"@
        },
        Error::RedisError(cause) => if debug { "RedisError: "@ + cause@ } else { "undefined"@ },
        _ => "undefined"@,
    }
}

impl Error {
    /// Convert an error to its protocol status code.
    pub fn to_status(&self) -> (r: u16)
        ensures
            r == status_of(*self),
    {
        match self {
            Error::UserNotFoundError | Error::EmailDoesNotExist(_) => 404,
            Error::EmailAlreadyExists => 409,
            Error::InvalidEmailAddressError
            | Error::FormValidationError(_)
            | Error::FormValidationErrors(_) => 400,
            Error::UnauthorizedError | Error::UnauthenticatedError => 401,
            _ => 500,
        }
    }

    /// The user-facing message for this error; `debug` selects whether
    /// infrastructure kinds show their full detail or the generic text.
    pub fn message(&self, debug: bool) -> (r: String)
        ensures
            r@ == message_view(*self, debug),
    {
        match self {
            Error::InvalidEmailAddressError => String::from_str(
                "That is not a valid email address.",
            ),
            Error::EmailAlreadyExists => String::from_str(
                "That email address already exists. Try logging in.",
            ),
            Error::UnauthorizedError => String::from_str("Incorrect email or password"),
            Error::UserNotFoundError => String::from_str(
                "Could not find any user that fits the specified requirements.",
            ),
            Error::EmailDoesNotExist(email) => {
                let mut m = String::from_str("The email \"");
                m.append(email.as_str());
                m.append("\" is not registered. Try signing up first.");
                m
            },
            Error::FormValidationError(code) => code.clone(),
            Error::FormValidationErrors(codes) => concat_code_strings(codes),
            Error::SqlxError(cause) => detail("SqlxError: ", cause, debug),
            Error::RusqliteError(cause) => detail("RusqliteError: ", cause, debug),
            Error::IOError(cause) => detail("IOError: ", cause, debug),
            Error::SerdeError(cause) => detail("SerdeError: ", cause, debug),
            Error::Argon2ParsingError(cause) => detail("Argon2ParsingError: ", cause, debug),
            Error::RedisError(cause) => detail("RedisError: ", cause, debug),
            _ => String::from_str("undefined"),
        }
    }

    /// The binary error payload for this error: a two-entry MessagePack array
    /// holding the literal status text `"error"` and the user-facing message.
    pub fn respond_body(&self, debug: bool) -> (r: Vec<u8>)
        ensures
            encode_utf8(message_view(*self, debug)).len() < 0x1_0000_0000 ==> r@
                == pair_encoding("error"@, message_view(*self, debug)),
    {
        let message = self.message(debug);
        let payload = Payload { status: String::from_str("error"), message };
        proof {
            reveal_strlit("error");
            assert(is_ascii_chars("error"@));
            is_ascii_chars_encode_utf8("error"@);
        }
        payload.encode()
    }
}

/// Prefix the cause with its kind when `debug` holds, else the generic text.
fn detail(kind: &str, cause: &String, debug: bool) -> (r: String)
    ensures
        r@ == if debug {
            kind@ + cause@
        } else {
            "undefined"@
        },
{
    if debug {
        let mut m = String::from_str(kind);
        m.append(cause.as_str());
        m
    } else {
        String::from_str("undefined")
    }
}

/// Concatenate field rule codes in order.
fn concat_code_strings(codes: &Vec<String>) -> (r: String)
    ensures
        r@ == concat_codes(codes.deep_view()),
{
    let mut m = String::new();
    let mut i: usize = 0;
    while i < codes.len()
        invariant
            i <= codes.len(),
            m@ == concat_prefix(codes.deep_view(), i as int),
        decreases codes.len() - i,
    {
        m.append(codes[i].as_str());
        i = i + 1;
    }
    assert(codes.deep_view().len() == codes@.len());
    m
}

/// The body of the error payload at the system boundary: a status text,
/// always the literal `"error"`, and a user-facing message.
pub struct Payload {
    pub status: String,
    pub message: String,
}

/// The MessagePack header of a string of `n` UTF-8 bytes: the most compact of
/// the fixstr, str 8, str 16 and str 32 forms, lengths in big-endian order.
pub open spec fn mp_str_header(n: nat) -> Seq<u8> {
    if n < 32 {
        seq![(0xa0 + n) as u8]
    } else if n < 256 {
        seq![0xd9u8, n as u8]
    } else if n < 65536 {
        seq![0xdau8, (n / 256) as u8, (n % 256) as u8]
    } else {
        seq![
            0xdbu8,
            (n / 0x1000000) as u8,
            ((n / 0x10000) % 256) as u8,
            ((n / 256) % 256) as u8,
            (n % 256) as u8,
        ]
    }
}

/// A MessagePack string: its header followed by its UTF-8 bytes.
pub open spec fn mp_str(bytes: Seq<u8>) -> Seq<u8> {
    mp_str_header(bytes.len()) + bytes
}

/// The MessagePack encoding of a two-string array: the fixarray marker for
/// two elements followed by both strings.
pub open spec fn pair_encoding(a: Seq<char>, b: Seq<char>) -> Seq<u8> {
    seq![0x92u8] + mp_str(encode_utf8(a)) + mp_str(encode_utf8(b))
}

/// Relies on `rmp_serde::encode::to_vec`: a tuple of two strings is written
/// as a fixarray of two MessagePack strings, each the most compact length
/// header before the string's UTF-8 bytes. A string of `0x1_0000_0000` bytes
/// or more has its length header truncated, so nothing is claimed there.
#[verifier::external_body]
fn encode_string_pair(a: &str, b: &str) -> (r: Vec<u8>)
    ensures
        a.spec_bytes().len() < 0x1_0000_0000 && b.spec_bytes().len() < 0x1_0000_0000 ==> r@
            == pair_encoding(a@, b@),
{
    match rmp_serde::encode::to_vec(&(a, b)) {
        Ok(v) => v,
        Err(_) => Vec::new(),
    }
}

impl Payload {
    /// Serialize the payload into its stable binary envelope.
    pub fn encode(&self) -> (r: Vec<u8>)
        ensures
            encode_utf8(self.status@).len() < 0x1_0000_0000 && encode_utf8(self.message@).len()
                < 0x1_0000_0000 ==> r@ == pair_encoding(self.status@, self.message@),
    {
        encode_string_pair(self.status.as_str(), self.message.as_str())
    }

    /// The payload written out as readable text.
    pub fn render(&self) -> (r: String)
        ensures
            r@ == "status: "@ + self.status@ + ", message: "@ + self.message@,
    {
        let mut m = String::from_str("status: ");
        m.append(self.status.as_str());
        m.append(", message: ");
        m.append(self.message.as_str());
        m
    }
}

} // verus!
