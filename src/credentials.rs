use vstd::prelude::*;

use crate::text::same_text;

verus! {

#[verifier::external_type_specification]
#[verifier::external_body]
pub struct ExBcryptError(bcrypt::BcryptError);

/// What bcrypt's verification answers for a password and a stored digest:
/// `Some(matches)`, or `None` where the digest cannot be read.
pub uninterp spec fn bcrypt_verdict(password: Seq<char>, digest: Seq<char>) -> Option<bool>;

/// Relies on bcrypt::hash at the default cost: a fresh random salt on each
/// call, a 60-character `$2b$` digest, and a digest that bcrypt::verify
/// accepts for the same password. It fails only when the system's random
/// source does.
#[verifier::external_body]
fn bcrypt_hash(password: &str) -> (r: Result<String, bcrypt::BcryptError>)
    ensures
        r matches Ok(d) ==> {
            &&& d@.len() == 60
            &&& d@.subrange(0, 4) == "$2b$"@
            &&& bcrypt_verdict(password@, d@) == Some(true)
        },
{
    bcrypt::hash(password, bcrypt::DEFAULT_COST)
}

/// Relies on bcrypt::verify: it answers for the password and the digest alone.
#[verifier::external_body]
fn bcrypt_verify(password: &str, digest: &str) -> (r: Result<bool, bcrypt::BcryptError>)
    ensures
        match r {
            Ok(b) => bcrypt_verdict(password@, digest@) == Some(b),
            Err(_) => bcrypt_verdict(password@, digest@) is None,
        },
{
    bcrypt::verify(password, digest)
}

/// The hashing library failed (its random source or its own fault).
#[derive(Clone, Copy, Debug, PartialEq, Eq, Structural)]
pub struct HashingFailed;

/// Whether `password` matches `digest`; an unreadable digest matches nothing.
pub open spec fn password_matches(password: Seq<char>, digest: Seq<char>) -> bool {
    bcrypt_verdict(password, digest) == Some(true)
}

/// Whether `digest` has the shape of a stored credential: 60 characters beginning with `$2b$`.
pub open spec fn digest_shape(digest: Seq<char>) -> bool {
    digest.len() == 60 && digest.subrange(0, 4) == "$2b$"@
}

/// `digest` is what hashing `password` may give: a digest that verifies
/// against the password and is not the password itself.
pub open spec fn hashed_from(password: Seq<char>, digest: Seq<char>) -> bool {
    digest_shape(digest) && password_matches(password, digest) && digest != password
}

/// What becomes of the hashing library's answer `hashed` for `password`: a
/// digest is accepted unless it equals the password; no digest is a failure.
pub fn accept_digest(password: &str, hashed: Option<String>) -> (r: Result<String, HashingFailed>)
    ensures
        match hashed {
            None => r == Err::<String, HashingFailed>(HashingFailed),
            Some(d) => if d@ == password@ {
                r == Err::<String, HashingFailed>(HashingFailed)
            } else {
                r == Ok::<String, HashingFailed>(d)
            },
        },
{
    match hashed {
        None => Err(HashingFailed),
        Some(d) => if same_text(d.as_str(), password) {
            Err(HashingFailed)
        } else {
            Ok(d)
        },
    }
}

/// Hashes a password with a fresh salt. A digest that comes back verifies
/// against the same password and differs from it; a digest equal to the
/// password is refused as a hashing failure.
pub fn hash_password(password: &str) -> (r: Result<String, HashingFailed>)
    ensures
        r matches Ok(d) ==> hashed_from(password@, d@),
{
    let hashed = match bcrypt_hash(password) {
        Ok(d) => Some(d),
        Err(_) => None,
    };
    accept_digest(password, hashed)
}

/// Checks a password against a stored digest.
pub fn verify_password(password: &str, digest: &str) -> (r: bool)
    ensures
        r == password_matches(password@, digest@),
{
    match bcrypt_verify(password, digest) {
        Ok(b) => b,
        Err(_) => false,
    }
}

/// Round trip: a digest that `hash_password` returned for a password is one
/// that `verify_password` accepts for that password, and it is never the
/// password itself.
pub proof fn lemma_hash_round_trip(password: Seq<char>, digest: Seq<char>)
    requires
        hashed_from(password, digest),
    ensures
        password_matches(password, digest),
        digest != password,
{
}

} // verus!
