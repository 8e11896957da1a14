//! Registration and login: the decisions around the user repository, which
//! is kept outside this crate and hands in what it found.

use crate::credential::{credential_accepts, MAX_PASSWORD_CHARS, hash_password, verify_outcome, verify_password};
use crate::session::{create_session, issue_effect, SESSION_TTL_SECS};
use crate::store::MemoryStore;
use vstd::prelude::*;

verus! {

/// Why a registration or login did not succeed.
#[derive(PartialEq, Eq, Structural, Debug, Clone, Copy)]
pub enum AuthError {
    /// Unknown user, wrong password or unusable password.
    InvalidCredential,
    /// The username is already registered.
    UsernameTaken,
    /// The stored hash of the user cannot be parsed: a server fault.
    MalformedStoredHash,
    /// The hasher or a store failed: a server fault.
    Unavailable,
}

/// What the user repository holds for a login: the user and the hash that
/// was stored at registration.
pub struct StoredCredential {
    pub user_id: i32,
    pub password_hash: String,
}

/// Decides a registration. A taken username is refused; otherwise the
/// password is hashed, and the hash is what the repository should store.
pub fn register_user(username_taken: bool, password: &str) -> (r: Result<String, AuthError>)
    ensures
        username_taken ==> r == Err::<String, AuthError>(AuthError::UsernameTaken),
        !username_taken && password@.len() == 0 ==> r == Err::<String, AuthError>(
            AuthError::InvalidCredential,
        ),
        !username_taken && password@.len() > 0 ==> match r {
            Ok(h) => credential_accepts(password@, h@),
            Err(e) => e == AuthError::Unavailable,
        },
        !username_taken && 0 < password@.len() <= MAX_PASSWORD_CHARS ==> r is Ok,
{
    if username_taken {
        return Err(AuthError::UsernameTaken);
    }
    if password.unicode_len() == 0 {
        return Err(AuthError::InvalidCredential);
    }
    match hash_password(password) {
        Ok(h) => Ok(h),
        Err(_) => Err(AuthError::Unavailable),
    }
}

/// What a login attempt decides, before any session is issued.
pub open spec fn login_outcome(account: Option<(i32, Seq<char>)>, password: Seq<char>) -> Result<
    i32,
    AuthError,
> {
    match account {
        None => Err(AuthError::InvalidCredential),
        Some((user_id, stored)) => match verify_outcome(password, stored) {
            Err(_) => Err(AuthError::MalformedStoredHash),
            Ok(false) => Err(AuthError::InvalidCredential),
            Ok(true) => Ok(user_id),
        },
    }
}

/// The view of what the repository found.
pub open spec fn account_view(account: &Option<StoredCredential>) -> Option<(i32, Seq<char>)> {
    match account {
        None => None,
        Some(c) => Some((c.user_id, c.password_hash@)),
    }
}

/// Checks a password against what the repository found for the username.
/// An unknown user and a wrong password are the same rejection; a corrupt
/// stored hash is a server fault; a right password yields the user.
pub fn check_login(account: &Option<StoredCredential>, password: &str) -> (r: Result<i32, AuthError>)
    ensures
        r == login_outcome(account_view(account), password@),
{
    match account {
        None => Err(AuthError::InvalidCredential),
        Some(c) => match verify_password(password, c.password_hash.as_str()) {
            Err(_) => Err(AuthError::MalformedStoredHash),
            Ok(false) => Err(AuthError::InvalidCredential),
            Ok(true) => Ok(c.user_id),
        },
    }
}

/// Decides a login and, on success, issues a session bound to `ip` and
/// returns its token. A failed login leaves the store as it was.
pub fn login_user(
    store: &mut MemoryStore,
    account: &Option<StoredCredential>,
    password: &str,
    ip: String,
    now: u64,
) -> (r: Result<String, AuthError>)
    requires
        old(store).wf(),
        now + SESSION_TTL_SECS <= u64::MAX,
    ensures
        final(store).wf(),
        match login_outcome(account_view(account), password@) {
            Err(e) => r == Err::<String, AuthError>(e) && final(store)@ == old(store)@,
            Ok(user_id) => r matches Ok(token) && token@.len() == 36 && final(store)@ == issue_effect(
                old(store)@,
                token@,
                user_id,
                ip@,
                now,
            ),
        },
{
    let user_id = check_login(account, password)?;
    Ok(create_session(store, user_id, ip, now))
}

} // verus!
