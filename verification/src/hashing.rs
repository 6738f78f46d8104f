use vstd::prelude::*;

use crate::error::{AuthError, MainError};

use argon2::password_hash::rand_core::OsRng;
use argon2::password_hash::{PasswordHash, PasswordHasher, PasswordVerifier, SaltString};
use argon2::Argon2;

verus! {

/// Whether `digest` is a well-formed PHC string: exactly the condition
/// under which `PasswordHash::new` accepts it.
pub uninterp spec fn digest_parses(digest: Seq<char>) -> bool;

/// Whether recomputing the hash of `password` with the algorithm,
/// parameters and salt embedded in `digest` reproduces the output
/// embedded in `digest`: exactly the condition under which Argon2's
/// `verify_password` accepts the pair. A function of the two strings
/// alone.
pub uninterp spec fn digest_matches(digest: Seq<char>, password: Seq<char>) -> bool;

/// What checking a plaintext against a stored digest can come to.
#[derive(PartialEq, Eq, Structural, Clone, Copy, Debug)]
pub(crate) enum DigestCheck {
    /// The digest parses and the password reproduces it.
    Matched,
    /// The digest parses but the password does not reproduce it.
    Mismatched,
    /// The digest string is not a well-formed PHC string.
    Malformed,
}

/// Relies on argon2's `hash_password` (via `PasswordHasher`): hashing with a
/// fresh random salt yields a PHC string that parses and that
/// `verify_password` accepts for the same password. Nothing is promised
/// about the digest's spelling: the salt is drawn from the operating
/// system's randomness.
#[verifier::external_body]
fn argon2_hash(text: &str) -> (r: Result<String, String>)
    ensures
        r matches Ok(d) ==> digest_parses(d@) && digest_matches(d@, text@),
{
    let salt = SaltString::generate(&mut OsRng);
    match Argon2::default().hash_password(text.as_bytes(), &salt) {
        Ok(hash) => Ok(hash.to_string()),
        Err(err) => Err(err.to_string()),
    }
}

/// Relies on `PasswordHash::new` to parse the stored digest and on argon2's
/// `verify_password` to recompute the hash with the digest's own
/// parameters and salt and compare in constant time. Both results are
/// functions of the two strings alone.
#[verifier::external_body]
fn argon2_check(text: &str, digest: &str) -> (r: DigestCheck)
    ensures
        (r is Malformed) == !digest_parses(digest@),
        (r is Matched) == (digest_parses(digest@) && digest_matches(digest@, text@)),
        (r is Mismatched) == (digest_parses(digest@) && !digest_matches(digest@, text@)),
{
    match PasswordHash::new(digest) {
        Ok(parsed) => match Argon2::default().verify_password(text.as_bytes(), &parsed) {
            Ok(()) => DigestCheck::Matched,
            Err(_) => DigestCheck::Mismatched,
        },
        Err(_) => DigestCheck::Malformed,
    }
}

/// What verifying `password` against `digest` returns: a distinct error
/// for a digest that does not parse, otherwise whether the password
/// reproduces the digest.
pub open spec fn digest_verdict(digest: Seq<char>, password: Seq<char>) -> Result<bool, AuthError> {
    if !digest_parses(digest) {
        Err(AuthError::MalformedDigest)
    } else {
        Ok(digest_matches(digest, password))
    }
}

/// Hash `text` with Argon2 under a fresh random salt and return the
/// digest as a self-describing PHC string.
pub fn secure_hash(text: String) -> (r: Result<String, MainError>)
    ensures
        r matches Ok(d) ==> digest_parses(d@) && digest_matches(d@, text@),
{
    match argon2_hash(text.as_str()) {
        Ok(digest) => Ok(digest),
        Err(message) => Err(MainError { message }),
    }
}

/// Verify `text` against a stored digest. Returns `Ok(true)` on a match,
/// `Ok(false)` on a mismatch, and a distinct error when the digest
/// string itself is malformed.
pub fn verify_hash(text: String, hash: &str) -> (r: Result<bool, AuthError>)
    ensures
        r == digest_verdict(hash@, text@),
{
    match argon2_check(text.as_str(), hash) {
        DigestCheck::Matched => Ok(true),
        DigestCheck::Mismatched => Ok(false),
        DigestCheck::Malformed => Err(AuthError::MalformedDigest),
    }
}

/// A digest freshly produced from a password verifies against that
/// password: `secure_hash` guarantees the two facts this lemma takes,
/// and under them verification must report a match.
pub proof fn hash_then_verify(digest: Seq<char>, password: Seq<char>)
    requires
        digest_parses(digest),
        digest_matches(digest, password),
    ensures
        digest_verdict(digest, password) == Ok::<bool, AuthError>(true),
{
}

} // verus!
