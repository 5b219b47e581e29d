use argon2::{PasswordHasher, PasswordVerifier};
use vstd::prelude::*;

verus! {

#[verifier::external_type_specification]
#[verifier::external_body]
pub struct ExHashError(argon2::password_hash::Error);

/// Why a password could not be hashed or checked.
#[derive(Debug, Clone)]
pub enum PasswordError {
    HashingError(String),
    VerificationError(String),
}

/// Whether a text parses as a PHC password-hash string.
pub uninterp spec fn phc_parses(hash: Seq<char>) -> bool;

/// Whether Argon2 accepts `password` against the PHC string `hash`.
pub uninterp spec fn argon2_accepts(password: Seq<char>, hash: Seq<char>) -> bool;

/// Relies on `SaltString::generate` with the OS random source and
/// `Argon2::default().hash_password`: the salt is random, so nothing fixes
/// the result but that it is a PHC string that the same password passes.
#[verifier::external_body]
fn argon2_hash(password: &str) -> (r: Result<String, argon2::password_hash::Error>)
    ensures
        r is Ok ==> phc_parses(r->Ok_0@) && argon2_accepts(password@, r->Ok_0@),
{
    let salt = argon2::password_hash::SaltString::generate(&mut argon2::password_hash::rand_core::OsRng);
    argon2::Argon2::default().hash_password(password.as_bytes(), &salt).map(|h| h.to_string())
}

/// Relies on `PasswordHash::new`, which parses the PHC string, and on
/// `Argon2::verify_password`, which recomputes the hash from the password
/// and the parsed parameters and compares.
#[verifier::external_body]
fn argon2_check(password: &str, hash: &str) -> (r: Result<bool, argon2::password_hash::Error>)
    ensures
        r is Ok <==> phc_parses(hash@),
        r is Ok ==> r->Ok_0 == argon2_accepts(password@, hash@),
{
    let parsed = argon2::PasswordHash::new(hash)?;
    Ok(argon2::Argon2::default().verify_password(password.as_bytes(), &parsed).is_ok())
}

/// Relies on the `Display` impl of `argon2::password_hash::Error`.
#[verifier::external_body]
fn hash_error_text(e: &argon2::password_hash::Error) -> (r: String) {
    e.to_string()
}

/// Hashes a password with Argon2 under a fresh random salt.
pub fn hash_password(password: &str) -> (r: Result<String, PasswordError>)
    ensures
        r is Ok ==> phc_parses(r->Ok_0@) && argon2_accepts(password@, r->Ok_0@),
        r is Err ==> r->Err_0 is HashingError,
{
    match argon2_hash(password) {
        Ok(h) => Ok(h),
        Err(e) => Err(PasswordError::HashingError(hash_error_text(&e))),
    }
}

/// Checks a password against a stored PHC hash string. A stored string that
/// does not parse is a `VerificationError`; otherwise the answer says
/// whether the password matches.
pub fn verify_password(password: &str, hash: &str) -> (r: Result<bool, PasswordError>)
    ensures
        r is Ok <==> phc_parses(hash@),
        r is Ok ==> r->Ok_0 == argon2_accepts(password@, hash@),
        r is Err ==> r->Err_0 is VerificationError,
{
    match argon2_check(password, hash) {
        Ok(b) => Ok(b),
        Err(e) => Err(PasswordError::VerificationError(hash_error_text(&e))),
    }
}

} // verus!
