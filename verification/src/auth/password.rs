//! Admin password hashing (argon2, PHC strings).

use vstd::prelude::*;
use vstd::string::StringSliceAdditionalSpecFns;

verus! {

/// Password hashing or verification failure.
#[derive(Debug)]
pub enum PasswordError {
    /// Hashing failed (argon2's message).
    Hash(String),
    /// The password does not match (or the stored hash is malformed).
    Verify,
}

/// Whether argon2 (default parameters) accepts `plain` against the PHC
/// string `phc`: the PHC string parses and re-hashing `plain` with its
/// parameters and salt gives its hash. A function of the two texts.
pub uninterp spec fn password_matches(plain: Seq<char>, phc: Seq<char>) -> bool;

/// argon2's `PasswordHash::new(phc)` and `Argon2::default().verify_password`.
/// Claimed: true exactly when the named check holds (a PHC string that does
/// not parse gives false).
#[verifier::external_body]
fn argon2_verify(plain: &str, phc: &str) -> (r: bool)
    ensures
        r == password_matches(plain@, phc@),
{
    match argon2::PasswordHash::new(phc) {
        Ok(parsed) => argon2::PasswordVerifier::verify_password(&argon2::Argon2::default(), plain.as_bytes(), &parsed).is_ok(),
        Err(_) => false,
    }
}

/// The longest password argon2 hashes, in UTF-8 bytes (its `MAX_PWD_LEN`).
pub const MAX_PASSWORD_BYTES: u64 = 0xFFFF_FFFF;

/// argon2's `Argon2::default().hash_password` with a fresh salt from the OS
/// generator, as a PHC string (or argon2's error message). Claimed: it
/// succeeds exactly when the password's UTF-8 bytes number at most
/// `MAX_PWD_LEN` (with the default parameters and a generated 16-byte salt,
/// the password-length check is the only check that can fail); a hash that
/// comes back is accepted for the same password by the named check (the PHC
/// string carries the algorithm, parameters and salt that verification
/// re-applies). The salt is random, so the text is left open.
#[verifier::external_body]
fn argon2_hash(plain: &str) -> (r: Result<String, String>)
    ensures
        r is Ok <==> plain.spec_bytes().len() <= MAX_PASSWORD_BYTES,
        r matches Ok(h) ==> password_matches(plain@, h@),
{
    let salt = argon2::password_hash::SaltString::generate(&mut argon2::password_hash::rand_core::OsRng);
    argon2::PasswordHasher::hash_password(&argon2::Argon2::default(), plain.as_bytes(), &salt)
        .map(|h| h.to_string())
        .map_err(|e| e.to_string())
}

/// Hashes a password into an argon2 PHC string (salt and parameters included).
/// It fails only for a password longer than argon2 accepts.
pub fn hash_password(plain: &str) -> (r: Result<String, PasswordError>)
    ensures
        r is Ok <==> plain.spec_bytes().len() <= MAX_PASSWORD_BYTES,
        r matches Ok(h) ==> password_matches(plain@, h@),
        r matches Err(e) ==> e is Hash,
{
    match argon2_hash(plain) {
        Ok(h) => Ok(h),
        Err(e) => Err(PasswordError::Hash(e)),
    }
}

/// Checks a password against a stored PHC string.
pub fn verify_password(plain: &str, phc: &str) -> (r: Result<(), PasswordError>)
    ensures
        r is Ok <==> password_matches(plain@, phc@),
        r matches Err(e) ==> e is Verify,
{
    if argon2_verify(plain, phc) {
        Ok(())
    } else {
        Err(PasswordError::Verify)
    }
}

} // verus!
