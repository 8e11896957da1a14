//! Salted password hashing and verification, delegated to Argon2 with its
//! default parameters and encoded as self-describing PHC strings.

use argon2::password_hash::{Error, PasswordHash, PasswordHasher, PasswordVerifier, SaltString};
use argon2::Argon2;
use rand::rngs::OsRng;
use rand::RngCore;
use vstd::prelude::*;

verus! {

/// The PHC string that Argon2 (default parameters) computes for `password`
/// under the raw `salt` bytes.
pub uninterp spec fn argon2_phc(password: Seq<char>, salt: Seq<u8>) -> Seq<char>;

/// What checking `password` against the PHC string `stored` gives:
/// `Some(true)` when it matches; `Some(false)` when the password is
/// rejected, and also for a PHC string that parses but carries no salt or
/// no hash; `None` when `stored` does not parse or names parameters or an
/// algorithm that Argon2 refuses.
pub uninterp spec fn argon2_verdict(password: Seq<char>, stored: Seq<char>) -> Option<bool>;

/// The salt bytes that `PasswordHash::new` reads from the PHC string
/// `stored`, decoded from B64; `None` when it does not parse or has no salt.
pub uninterp spec fn phc_salt(stored: Seq<char>) -> Option<Seq<u8>>;

/// The longest password, in characters, whose UTF-8 form surely fits in
/// Argon2's limit of `0xFFFF_FFFF` bytes.
pub const MAX_PASSWORD_CHARS: usize = 0x3fff_ffff;

/// Why a credential operation could not be carried out.
#[derive(PartialEq, Eq, Structural, Debug, Clone, Copy)]
pub enum CredentialError {
    /// The stored hash is not a usable Argon2 hash: the credential store is
    /// corrupt.
    MalformedStoredHash,
    /// The hasher refused its input.
    Unavailable,
}

/// `stored` is a well-formed hash that accepts `password`.
pub open spec fn credential_accepts(password: Seq<char>, stored: Seq<char>) -> bool {
    argon2_verdict(password, stored) == Some(true)
}

/// `stored` is Argon2's hash of `password` under `salt`: it carries the salt
/// and accepts the password.
pub open spec fn hashed_under(password: Seq<char>, salt: Seq<u8>, stored: Seq<char>) -> bool {
    &&& stored == argon2_phc(password, salt)
    &&& phc_salt(stored) == Some(salt)
    &&& credential_accepts(password, stored)
}

/// What checking `password` against `stored` yields.
pub open spec fn verify_outcome(password: Seq<char>, stored: Seq<char>) -> Result<
    bool,
    CredentialError,
> {
    match argon2_verdict(password, stored) {
        Some(b) => Ok(b),
        None => Err(CredentialError::MalformedStoredHash),
    }
}

/// Relies on `OsRng::fill_bytes`: sixteen bytes from the operating
/// system's random source, nothing known of their values.
#[verifier::external_body]
pub(crate) fn random_bytes() -> (r: Vec<u8>)
    ensures
        r@.len() == 16,
{
    let mut bytes = [0u8; 16];
    OsRng.fill_bytes(&mut bytes);
    bytes.to_vec()
}

/// Relies on `SaltString::encode_b64` and `PasswordHasher::hash_password`
/// of `Argon2::default()`: the PHC string of `password` under `salt`, which
/// verifies against the same password and carries the salt in B64, so
/// that `PasswordHash::new` reads it back. With a salt of 8 to 48 bytes,
/// Argon2 refuses only a password over `0xFFFF_FFFF` bytes.
#[verifier::external_body]
fn argon2_hash(password: &str, salt: &Vec<u8>) -> (r: Option<String>)
    requires
        8 <= salt@.len() <= 48,
    ensures
        r matches Some(h) ==> h@ == argon2_phc(password@, salt@) && argon2_verdict(password@, h@)
            == Some(true) && phc_salt(h@) == Some(salt@),
        password@.len() <= MAX_PASSWORD_CHARS ==> r is Some,
{
    let salt = SaltString::encode_b64(salt).ok()?;
    Argon2::default().hash_password(password.as_bytes(), &salt).ok().map(|h| h.to_string())
}

/// Relies on `PasswordHash::new`, which parses `stored`, and on
/// `PasswordVerifier::verify_password` of `Argon2::default()`, which
/// recomputes the hash with the stored salt and parameters and compares:
/// `Error::Password` is a rejected password, any other error an unusable
/// hash.
#[verifier::external_body]
fn argon2_verify(password: &str, stored: &str) -> (r: Option<bool>)
    ensures
        r == argon2_verdict(password@, stored@),
{
    let parsed = PasswordHash::new(stored).ok()?;
    match Argon2::default().verify_password(password.as_bytes(), &parsed) {
        Ok(()) => Some(true),
        Err(Error::Password) => Some(false),
        Err(_) => None,
    }
}

/// Hashes a non-empty password under the given salt of 8 to 48 bytes.
/// The hash is Argon2's PHC string for that password and salt, and it
/// accepts the password; hashing succeeds for every password within
/// Argon2's length limit.
pub fn hash_password_with_salt(password: &str, salt: &Vec<u8>) -> (r: Result<String, CredentialError>)
    requires
        password@.len() > 0,
        8 <= salt@.len() <= 48,
    ensures
        r matches Ok(h) ==> hashed_under(password@, salt@, h@),
        r matches Err(e) ==> e == CredentialError::Unavailable,
        password@.len() <= MAX_PASSWORD_CHARS ==> r is Ok,
{
    match argon2_hash(password, salt) {
        Some(h) => Ok(h),
        None => Err(CredentialError::Unavailable),
    }
}

/// Hashes a non-empty password under a fresh random 16-byte salt. The hash
/// accepts the password; hashing succeeds for every password within
/// Argon2's length limit.
pub fn hash_password(password: &str) -> (r: Result<String, CredentialError>)
    requires
        password@.len() > 0,
    ensures
        r matches Ok(h) ==> credential_accepts(password@, h@),
        r matches Err(e) ==> e == CredentialError::Unavailable,
        password@.len() <= MAX_PASSWORD_CHARS ==> r is Ok,
{
    let salt = random_bytes();
    hash_password_with_salt(password, &salt)
}

/// Checks `password` against a stored hash: `Ok(false)` for a wrong
/// password, an error when the stored hash is not a usable Argon2 hash.
pub fn verify_password(password: &str, stored: &str) -> (r: Result<bool, CredentialError>)
    ensures
        r == verify_outcome(password@, stored@),
{
    match argon2_verify(password, stored) {
        Some(b) => Ok(b),
        None => Err(CredentialError::MalformedStoredHash),
    }
}

/// A password always verifies against a hash made from it.
pub proof fn lemma_hash_then_verify(password: Seq<char>, stored: Seq<char>)
    requires
        credential_accepts(password, stored),
    ensures
        verify_outcome(password, stored) == Ok::<bool, CredentialError>(true),
{
}

/// One password hashed under two different salts gives two different
/// encoded strings, and both verify against the password.
pub proof fn lemma_distinct_salts_distinct_hashes(
    password: Seq<char>,
    salt1: Seq<u8>,
    salt2: Seq<u8>,
    stored1: Seq<char>,
    stored2: Seq<char>,
)
    requires
        salt1 != salt2,
        hashed_under(password, salt1, stored1),
        hashed_under(password, salt2, stored2),
    ensures
        stored1 != stored2,
        verify_outcome(password, stored1) == Ok::<bool, CredentialError>(true),
        verify_outcome(password, stored2) == Ok::<bool, CredentialError>(true),
{
}

} // verus!
