//! The credential verifier: salted one-way password hashes, made and checked
//! by the `argon2` crate with its default settings.

use vstd::prelude::*;

use crate::error::CredentialError;

verus! {

/// The error type of `argon2::password_hash`.
#[verifier::external_type_specification]
#[verifier::external_body]
pub struct ExPasswordHashError(argon2::password_hash::Error);

// Whether `stored` parses as a PHC string and Argon2, run on `password` with
// the parameters and the salt that `stored` holds, gives the hash in it.
pub uninterp spec fn argon2_accepts(password: Seq<char>, stored: Seq<char>) -> bool;

// The text that `password_hash::PasswordHash` prints after parsing `stored`
// as a PHC string; nothing where `stored` does not parse.
pub uninterp spec fn phc_reprint(stored: Seq<char>) -> Option<Seq<char>>;

/// Whether `password` is short enough for Argon2 in every encoding: at four
/// bytes for each character it stays within the 0xFFFF_FFFF bytes that the
/// algorithm takes.
pub open spec fn password_fits(password: Seq<char>) -> bool {
    password.len() <= 0x3fff_ffff
}

/// Calls `SaltString::generate` on the operating system's random source and
/// `Argon2::default().hash_password` with that salt, and prints the hash as a
/// PHC string.
///
/// Trusted: the call succeeds for every password that fits, since the salt
/// it draws is always valid and with the default settings the only input
/// that Argon2 refuses is a password of more than 0xFFFF_FFFF bytes. A hash
/// that comes back is accepted for the same password. The salt is random, so
/// nothing more is claimed of the text.
#[verifier::external_body]
fn argon2_hash(password: &str) -> (r: Result<String, argon2::password_hash::Error>)
    ensures
        password_fits(password@) ==> r is Ok,
        r matches Ok(hash) ==> argon2_accepts(password@, hash@),
{
    let salt = argon2::password_hash::SaltString::generate(
        &mut argon2::password_hash::rand_core::OsRng,
    );
    let hasher = argon2::Argon2::default();
    let hash = argon2::PasswordHasher::hash_password(&hasher, password.as_bytes(), &salt)?;
    Ok(hash.to_string())
}

/// Calls `PasswordHash::new` on `stored` and `Argon2::default().verify_password`
/// on the result.
///
/// Trusted: the call succeeds exactly when the stored hash accepts the
/// password.
#[verifier::external_body]
fn argon2_verify(password: &str, stored: &str) -> (r: Result<(), argon2::password_hash::Error>)
    ensures
        r is Ok <==> argon2_accepts(password@, stored@),
{
    let parsed = argon2::PasswordHash::new(stored)?;
    let hasher = argon2::Argon2::default();
    argon2::PasswordVerifier::verify_password(&hasher, password.as_bytes(), &parsed)
}

/// Calls `PasswordHash::new` on `stored` and prints the result.
///
/// Trusted: the text that comes back is the named reprint, and the call fails
/// exactly where there is none.
#[verifier::external_body]
fn phc_parse(stored: &str) -> (r: Result<String, argon2::password_hash::Error>)
    ensures
        match r {
            Ok(text) => phc_reprint(stored@) == Some(text@),
            Err(_) => phc_reprint(stored@) is None,
        },
{
    Ok(argon2::PasswordHash::new(stored)?.to_string())
}

/// Turns the outcome of the hashing backend into the outcome of hashing.
pub fn hashed_password(outcome: Result<String, argon2::password_hash::Error>) -> (r: Result<
    String,
    CredentialError,
>)
    ensures
        match outcome {
            Ok(hash) => r == Ok::<String, CredentialError>(hash),
            Err(_) => r == Err::<String, CredentialError>(CredentialError::Hashing),
        },
{
    match outcome {
        Ok(hash) => Ok(hash),
        Err(_) => Err(CredentialError::Hashing),
    }
}

/// Hashes `password` with a fresh random salt.
///
/// Every password that fits gets a hash. Two calls on one password give
/// different hashes; a hash is checked with [`verify_hashed_password`], which
/// accepts it for this password.
pub fn generate_hash_password(password: &str) -> (r: Result<String, CredentialError>)
    ensures
        password_fits(password@) ==> r is Ok,
        match r {
            Ok(hash) => argon2_accepts(password@, hash@),
            Err(e) => e == CredentialError::Hashing,
        },
{
    hashed_password(argon2_hash(password))
}

/// Checks `password` against the stored hash `db_password`.
///
/// Fails closed: a stored hash that cannot be read and a password that does
/// not match both give `Mismatch`.
pub fn verify_hashed_password(password: &str, db_password: &str) -> (r: Result<
    (),
    CredentialError,
>)
    ensures
        r is Ok <==> argon2_accepts(password@, db_password@),
        r is Err ==> r == Err::<(), CredentialError>(CredentialError::Mismatch),
{
    match argon2_verify(password, db_password) {
        Ok(()) => Ok(()),
        Err(_) => Err(CredentialError::Mismatch),
    }
}

/// The view of an optional text.
pub open spec fn text_view(text: Option<String>) -> Option<Seq<char>> {
    match text {
        Some(t) => Some(t@),
        None => None,
    }
}

/// Parses a stored hash and prints it back in canonical form; `None` where
/// it is not a PHC string.
pub fn read_stored_hash(stored: &str) -> (r: Option<String>)
    ensures
        text_view(r) == phc_reprint(stored@),
{
    match phc_parse(stored) {
        Ok(text) => Some(text),
        Err(_) => None,
    }
}

} // verus!
