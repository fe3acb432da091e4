use vstd::prelude::*;

verus! {

/// Names the boolean that `bcrypt::verify` computes for a password and a
/// digest. The salt is embedded in the digest, so the result is a function
/// of the two arguments alone.
pub uninterp spec fn bcrypt_matches(password: Seq<char>, digest: Seq<char>) -> bool;

/// Names the set of digest strings that `bcrypt::verify` parses without an
/// error: the sixty-byte bcrypt format with a known version tag and an
/// in-range cost, which is exactly the shape `bcrypt::hash` emits.
pub uninterp spec fn wf_digest(digest: Seq<char>) -> bool;

/// Relies on `bcrypt::hash` with `bcrypt::DEFAULT_COST`: on success the
/// returned digest is well-formed and `bcrypt::verify` finds the same
/// password to match it; the call fails only when the operating system's
/// randomness source fails while drawing a salt.
#[verifier::external_body]
pub(crate) fn hash_password(password: &String) -> (r: Result<String, ()>)
    ensures
        r matches Ok(d) ==> wf_digest(d@) && bcrypt_matches(password@, d@),
{
    match bcrypt::hash(password.as_bytes(), bcrypt::DEFAULT_COST) {
        Ok(d) => Ok(d),
        Err(_) => Err(()),
    }
}

/// Relies on `bcrypt::verify`: deterministic in its two arguments, it
/// returns `Ok` exactly on well-formed digests, and the boolean it returns
/// is the match result named by `bcrypt_matches`.
#[verifier::external_body]
pub(crate) fn verify_password(password: &String, digest: &String) -> (r: Result<bool, ()>)
    ensures
        r matches Ok(m) ==> m == bcrypt_matches(password@, digest@),
        wf_digest(digest@) ==> r is Ok,
{
    match bcrypt::verify(password.as_bytes(), digest.as_str()) {
        Ok(m) => Ok(m),
        Err(_) => Err(()),
    }
}

} // verus!
