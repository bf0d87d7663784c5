//! Password hashing through the `bcrypt` crate: an adaptive salted hash
//! with the crate's default work factor, and constant-time verification.

use vstd::prelude::*;

verus! {

/// What `bcrypt::verify` makes of a password and a hash string: whether they
/// match, or nothing where verification itself fails (a malformed hash
/// string). A pure function of the two strings: the salt is read back out of
/// the hash string.
pub uninterp spec fn bcrypt_verify_of(password: Seq<char>, hash: Seq<char>) -> Option<bool>;

/// Relies on `bcrypt::hash` with `bcrypt::DEFAULT_COST`: on success the
/// result is a hash string that `bcrypt::verify` matches against the same
/// password; it fails only when the operating system's randomness source
/// fails while drawing the salt.
#[verifier::external_body]
pub(crate) fn hash_password(password: &str) -> (r: Option<String>)
    ensures
        (match r {
            Some(h) => bcrypt_verify_of(password@, h@) == Some(true),
            None => true,
        }),
{
    match bcrypt::hash(password, bcrypt::DEFAULT_COST) {
        Ok(h) => Some(h),
        Err(_) => None,
    }
}

/// Relies on `bcrypt::verify`: a pure function of password and hash.
#[verifier::external_body]
pub(crate) fn check_password(password: &str, hash: &str) -> (r: Option<bool>)
    ensures
        r == bcrypt_verify_of(password@, hash@),
{
    match bcrypt::verify(password, hash) {
        Ok(b) => Some(b),
        Err(_) => None,
    }
}

} // verus!
