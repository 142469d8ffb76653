//! The account record manipulated by the storage layer, its abstract view,
//! and the random-string generator used for caller-issued secrets.

use vstd::prelude::*;

verus! {

/// One account record: a caller-assigned 128-bit identifier, an email that
/// is unique across all records, an opaque credential-hash string that the
/// store never interprets, and a privilege flag.
#[derive(Debug, Clone, PartialEq, Eq)]
pub struct User {
    pub id: u128,
    pub email: String,
    pub password: String,
    pub is_admin: bool,
}

/// The abstract content of one stored record, without its key.
#[verifier::ext_equal]
pub ghost struct Rec {
    pub email: Seq<char>,
    pub password: Seq<char>,
    pub is_admin: bool,
}

/// The abstract content of a user record.
pub open spec fn rec_of(u: User) -> Rec {
    Rec { email: u.email@, password: u.password@, is_admin: u.is_admin }
}

impl User {
    /// An owned copy of this record, equal to it field by field.
    pub fn duplicate(&self) -> (u: User)
        ensures
            u == *self,
    {
        User {
            id: self.id,
            email: self.email.clone(),
            password: self.password.clone(),
            is_admin: self.is_admin,
        }
    }
}

/// A character drawn by the random-string generator: an ASCII digit or
/// letter.
pub open spec fn is_alphanumeric_char(c: char) -> bool {
    ('0' <= c && c <= '9') || ('A' <= c && c <= 'Z') || ('a' <= c && c <= 'z')
}

/// Relies on `rand::random`: draws a value of a type that the standard
/// distribution covers. Nothing is promised of the result.
pub assume_specification<T>[ rand::random::<T> ]() -> (r: T)
    where
        rand::distributions::Standard: rand::distributions::Distribution<T>,
;

/// Relies on `String::from_utf8`: bytes below 128 are ASCII, so the result
/// is the string of exactly those bytes read as characters.
#[verifier::external_body]
fn ascii_to_string(v: Vec<u8>) -> (r: String)
    requires
        forall|i: int| 0 <= i < v@.len() ==> v@[i] < 128,
    ensures
        r@ == v@.map_values(|b: u8| b as char),
{
    match String::from_utf8(v) {
        Ok(s) => s,
        Err(_) => String::new(),
    }
}

/// A random string of `size` ASCII digits and letters.
pub fn rand_string(size: usize) -> (r: String)
    ensures
        r@.len() == size as nat,
        forall|i: int| 0 <= i < r@.len() ==> is_alphanumeric_char(#[trigger] r@[i]),
{
    let mut bytes: Vec<u8> = Vec::new();
    let mut i: usize = 0;
    while i < size
        invariant
            i <= size,
            bytes@.len() == i as nat,
            forall|k: int| 0 <= k < bytes@.len() ==> is_alphanumeric_char(#[trigger] bytes@[k] as char),
            forall|k: int| 0 <= k < bytes@.len() ==> bytes@[k] < 128,
        decreases size - i,
    {
        let b: u8 = rand::random::<u8>();
        let pick: u8 = b % 62;
        let ascii: u8 = if pick < 10 {
            48 + pick
        } else if pick < 36 {
            65 + (pick - 10)
        } else {
            97 + (pick - 36)
        };
        bytes.push(ascii);
        i = i + 1;
    }
    let r = ascii_to_string(bytes);
    assert(r@.len() == size as nat);
    assert forall|k: int| 0 <= k < r@.len() implies is_alphanumeric_char(#[trigger] r@[k]) by {
        assert(r@[k] == bytes@[k] as char);
    }
    r
}

} // verus!
