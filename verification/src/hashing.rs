use vstd::prelude::*;

verus! {

/// Whether `digest` is a well-formed bcrypt digest of `password`: that is,
/// whether recomputing the bcrypt function over `password` with the cost and
/// salt recorded inside `digest` reproduces the hash part of `digest`.
///
/// The value depends on the two arguments alone; it is left without a
/// definition because writing the bcrypt algorithm out here would state
/// nothing that could be checked against the outside implementation.
pub uninterp spec fn bcrypt_matches(password: Seq<char>, digest: Seq<char>) -> bool;

/// Relies on `bcrypt::hash` with `bcrypt::DEFAULT_COST`: on success it returns
/// a digest built from a freshly drawn random salt, whose hash part is the
/// bcrypt function of the password under that salt, so the digest verifies
/// against the password that produced it. The salt is random, so nothing more
/// is promised of the returned string; failure (the system's randomness
/// source being unavailable) is surfaced as `None`.
#[verifier::external_body]
pub(crate) fn hash_password(password: &String) -> (r: Option<String>)
    ensures
        r matches Some(digest) ==> bcrypt_matches(password@, digest@),
{
    match bcrypt::hash(password, bcrypt::DEFAULT_COST) {
        Ok(digest) => Some(digest),
        Err(_) => None,
    }
}

/// Relies on `bcrypt::verify`: it parses the digest, recomputes the bcrypt
/// function of the password under the digest's own cost and salt, and compares
/// in constant time. A malformed digest makes `bcrypt::verify` return an
/// error; such a digest is the bcrypt digest of no password at all, so the
/// error collapses to `false` exactly as the comparison would.
#[verifier::external_body]
pub(crate) fn verify_password(password: &String, digest: &String) -> (r: bool)
    ensures
        r == bcrypt_matches(password@, digest@),
{
    match bcrypt::verify(password, digest) {
        Ok(matched) => matched,
        Err(_) => false,
    }
}

} // verus!
