//! The two outside services the logic needs: bcrypt password hashing and
//! random session-id generation. Each call sits behind a trusted wrapper;
//! everything around the calls is verified.

use vstd::prelude::*;

verus! {

/// The lowest bcrypt cost factor `bcrypt::hash` accepts.
pub const MIN_COST: u32 = 4;

/// The highest bcrypt cost factor `bcrypt::hash` accepts.
pub const MAX_COST: u32 = 31;

/// The bcrypt cost factor used when none is chosen, `bcrypt::DEFAULT_COST`.
pub const DEFAULT_COST: u32 = 12;

/// Whether bcrypt verification of `password` against the hash string `hash`
/// succeeds.
///
/// This names the outcome of `bcrypt::verify(password, hash)` with an error
/// counted as no match: a value determined by the two arguments alone. It is
/// given no definition here; what is known of it is exactly what the two
/// trusted wrappers below state.
pub uninterp spec fn bcrypt_matches(password: Seq<char>, hash: Seq<char>) -> bool;

/// The error type of the bcrypt crate, opaque to this library.
#[verifier::external_type_specification]
#[verifier::external_body]
pub struct ExBcryptError(bcrypt::BcryptError);

/// Hashes a password for storage.
///
/// Relies on `bcrypt::hash`: on success the result is a bcrypt hash string of
/// the password under a fresh random salt, which `bcrypt::verify` accepts
/// against the same password (both sides truncate the password to its first
/// 72 bytes, so verification sees the bytes hashing saw). The call fails only
/// when the cost lies outside `MIN_COST..=MAX_COST` or the operating system's
/// randomness source fails.
#[verifier::external_body]
pub fn hash_password(password: &str, cost: u32) -> (r: Result<String, bcrypt::BcryptError>)
    ensures
        r matches Ok(h) ==> bcrypt_matches(password@, h@),
{
    bcrypt::hash(password, cost)
}

/// Checks a password against a stored hash string.
///
/// Relies on `bcrypt::verify`: the outcome is a deterministic function of the
/// password and the hash string (the salt and cost are read back out of the
/// hash). A malformed hash string makes `bcrypt::verify` return an error,
/// which counts as no match here.
#[verifier::external_body]
pub fn verify_password(password: &str, hash: &str) -> (r: bool)
    ensures
        r == bcrypt_matches(password@, hash@),
{
    matches!(bcrypt::verify(password, hash), Ok(true))
}

/// Draws a fresh random session identifier.
///
/// Relies on `uuid::Uuid::new_v4`: a version-4 UUID from operating-system
/// randomness, rendered in the hyphenated form, which is always 36 ASCII
/// characters. Nothing beyond the length is promised: in particular two calls
/// may return anything, including the same value, so callers must cope with a
/// collision against an already-stored identifier. If the operating system's
/// randomness source fails, `new_v4` panics rather than returning.
#[verifier::external_body]
pub fn fresh_token_id() -> (r: String)
    ensures
        r@.len() == 36,
{
    uuid::Uuid::new_v4().hyphenated().to_string()
}

} // verus!
