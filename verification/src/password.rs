//! Password hashing, done by the `bcrypt` crate.

use vstd::prelude::*;

verus! {

/// What `bcrypt::verify` returns for a password and a stored hash:
/// `Some(matches)` where it returns `Ok(matches)`, `None` where it returns
/// an error (a hash it cannot take apart, a cost out of range, a password
/// with a zero byte).
pub uninterp spec fn bcrypt_verify(password: Seq<char>, hash: Seq<char>) -> Option<bool>;

/// Calls `bcrypt::verify`. The stored hash must be ASCII: the crate cuts
/// the hash text at fixed byte offsets, which is only safe on one-byte
/// characters.
#[verifier::external_body]
pub(crate) fn verify_password(password: &str, hash: &str) -> (verdict: Option<bool>)
    requires
        hash.is_ascii(),
    ensures
        verdict == bcrypt_verify(password@, hash@),
{
    match bcrypt::verify(password, hash) {
        Ok(matches) => Some(matches),
        Err(_) => None,
    }
}

/// Calls `bcrypt::hash` with `bcrypt::DEFAULT_COST`. The salt is random,
/// so the hash itself is not determined; what holds of every hash that
/// comes back is that it is ASCII (a `$2b$12$` header and bcrypt's
/// base-64 alphabet) and that `bcrypt::verify` accepts it for the same
/// password, since verification recomputes the digest from the salt and
/// cost written into the hash. A password with a zero character is
/// refused; so is any password when the system has no randomness to give.
#[verifier::external_body]
pub(crate) fn hash_password(password: &str) -> (hashed: Option<String>)
    ensures
        password@.contains('\0') ==> hashed is None,
        hashed matches Some(hash) ==> hash.is_ascii() && bcrypt_verify(password@, hash@) == Some(
            true,
        ),
{
    match bcrypt::hash(password, bcrypt::DEFAULT_COST) {
        Ok(hash) => Some(hash),
        Err(_) => None,
    }
}

} // verus!
