//! Password digests and the credential checks of login and registration.
use vstd::prelude::*;

use crate::error::Error;

verus! {

pub const WRONG_CREDENTIALS_MESSAGE: &'static str = "Wrong username or password";

pub const ALREADY_REGISTERED_MESSAGE: &'static str = "This user is already registered";

/// The SHA-256 digest of `b`.
pub uninterp spec fn sha256_digest(b: Seq<u8>) -> Seq<u8>;

/// The lower-case hexadecimal digit of `d`.
pub open spec fn hex_digit(d: u8) -> char {
    seq!['0', '1', '2', '3', '4', '5', '6', '7', '8', '9', 'a', 'b', 'c', 'd', 'e', 'f'][d as int]
}

/// Two lower-case hexadecimal digits for each byte, high nibble first.
pub open spec fn hex_text(b: Seq<u8>) -> Seq<char>
    decreases b.len(),
{
    if b.len() == 0 {
        Seq::empty()
    } else {
        hex_text(b.drop_last()).push(hex_digit(b.last() / 16)).push(hex_digit(b.last() % 16))
    }
}

/// The stored form of a password: the hexadecimal text of its SHA-256 digest.
pub open spec fn password_digest_of(password: Seq<char>) -> Seq<char> {
    hex_text(sha256_digest(vstd::utf8::encode_utf8(password)))
}

/// Relies on sha2's `Sha256::digest`: the 32-byte SHA-256 digest of `b`.
#[verifier::external_body]
fn sha256(b: &[u8]) -> (r: Vec<u8>)
    ensures
        r@ == sha256_digest(b@),
        r@.len() == 32,
{
    <sha2::Sha256 as sha2::Digest>::digest(b).to_vec()
}

/// Relies on `hex::encode`: two lower-case hexadecimal digits for each byte.
#[verifier::external_body]
fn hex_encode(b: &[u8]) -> (r: String)
    ensures
        r@ == hex_text(b@),
{
    hex::encode(b)
}

/// The stored form of `password`.
pub fn password_digest(password: &str) -> (r: String)
    ensures
        r@ == password_digest_of(password@),
{
    let digest = sha256(password.as_bytes());
    hex_encode(digest.as_slice())
}

/// Checks a login's password against the stored digest of the user's password.
pub fn check_password(password: &str, stored_digest: &String) -> (r: Result<(), Error>)
    ensures
        r is Ok <==> password_digest_of(password@) == stored_digest@,
        r matches Err(e) ==> e.status_code == 401 && e.message@ == WRONG_CREDENTIALS_MESSAGE@,
{
    let digest = password_digest(password);
    if digest.eq(stored_digest) {
        Ok(())
    } else {
        Err(Error::new(401, WRONG_CREDENTIALS_MESSAGE.to_owned()))
    }
}

/// Refuses a registration under a name that is already taken.
pub fn check_not_registered(already_registered: bool) -> (r: Result<(), Error>)
    ensures
        r is Ok <==> !already_registered,
        r matches Err(e) ==> e.status_code == 400 && e.message@ == ALREADY_REGISTERED_MESSAGE@,
{
    if already_registered {
        Err(Error::new(400, ALREADY_REGISTERED_MESSAGE.to_owned()))
    } else {
        Ok(())
    }
}

} // verus!
