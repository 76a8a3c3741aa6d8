use crate::helpers::InternalError;
use argon2::password_hash::rand_core::OsRng;
use argon2::password_hash::SaltString;
use argon2::{Argon2, PasswordHash, PasswordHasher, PasswordVerifier};
use vstd::prelude::*;

verus! {

/// What Argon2 says of a password and a stored hash: whether the password
/// is the one that was hashed, or the reason why the hash cannot be read.
pub uninterp spec fn argon2_verdict(password: Seq<char>, hash: Seq<char>) -> Result<
    bool,
    Seq<char>,
>;

/// Whether Argon2 accepts `password` for `hash`.
pub open spec fn accepts(password: Seq<char>, hash: Seq<char>) -> bool {
    argon2_verdict(password, hash) == Ok::<bool, Seq<char>>(true)
}

/// `argon2::PasswordHash::new`, then `verify_password` of the default
/// `Argon2`: a hash that cannot be read gives its error's message, any
/// failure to verify gives `false`.
#[verifier::external_body]
fn argon2_verify(password: &str, hash: &str) -> (verdict: Result<bool, String>)
    ensures
        match verdict {
            Ok(same) => argon2_verdict(password@, hash@) == Ok::<bool, Seq<char>>(same),
            Err(message) => argon2_verdict(password@, hash@) == Err::<bool, Seq<char>>(message@),
        },
{
    match PasswordHash::new(hash) {
        Ok(parsed) => Ok(Argon2::default().verify_password(password.as_bytes(), &parsed).is_ok()),
        Err(error) => Err(error.to_string()),
    }
}

/// `argon2::password_hash::SaltString::generate` with the system's random
/// source, then `hash_password` of the default `Argon2`. The salt is random,
/// so the hash differs from call to call; each one verifies against the
/// password it was made from.
#[verifier::external_body]
fn argon2_hash(password: &str) -> (hash: Result<String, String>)
    ensures
        hash matches Ok(text) ==> accepts(password@, text@),
{
    let salt = SaltString::generate(&mut OsRng);
    match Argon2::default().hash_password(password.as_bytes(), &salt) {
        Ok(hash) => Ok(hash.to_string()),
        Err(error) => Err(error.to_string()),
    }
}

/// Reports what Argon2 said: its verdict, or its message as a password-hash
/// error.
pub fn password_verdict(verdict: Result<bool, String>) -> (result: Result<bool, InternalError>)
    ensures
        match verdict {
            Ok(same) => result matches Ok(answer) && answer == same,
            Err(message) => result matches Err(InternalError::PasswordHash(text)) && text@
                == message@,
        },
{
    match verdict {
        Ok(same) => Ok(same),
        Err(message) => Err(InternalError::PasswordHash(message)),
    }
}

/// What checking a password against a hash owes.
pub open spec fn verdict_is(
    result: Result<bool, InternalError>,
    password: Seq<char>,
    hash: Seq<char>,
) -> bool {
    match result {
        Ok(same) => argon2_verdict(password, hash) == Ok::<bool, Seq<char>>(same),
        Err(error) => error matches InternalError::PasswordHash(text) && argon2_verdict(
            password,
            hash,
        ) == Err::<bool, Seq<char>>(text@),
    }
}

/// Hashes a password under a fresh random salt. The hash that comes back
/// verifies against this password.
pub fn hash_password(password: &str) -> (result: Result<String, InternalError>)
    ensures
        match result {
            Ok(hash) => accepts(password@, hash@),
            Err(error) => error is PasswordHash,
        },
{
    match argon2_hash(password) {
        Ok(hash) => Ok(hash),
        Err(message) => Err(InternalError::PasswordHash(message)),
    }
}

/// Whether `password` is the one that `hash` was made from. A hash that
/// cannot be read is an error; any other failure to verify is `false`.
pub fn verify_password(password: &str, hash: &str) -> (result: Result<bool, InternalError>)
    ensures
        verdict_is(result, password@, hash@),
{
    password_verdict(argon2_verify(password, hash))
}

} // verus!
