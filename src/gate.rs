//! The authorization gate: from a request's `Authorization` header and the
//! peer address seen by the transport, an authenticated user or a rejection.

use crate::session::{validate_effect, validate_session};
use crate::store::MemoryStore;
use vstd::prelude::*;

verus! {

/// The identity that an authorized request acts as.
#[derive(PartialEq, Eq, Structural, Debug, Clone, Copy)]
pub struct AuthUser {
    pub user_id: i32,
}

/// Why a request was not authorized.
#[derive(PartialEq, Eq, Structural, Debug, Clone, Copy)]
pub enum GateRejection {
    /// The request carries no `Authorization` header.
    MissingCredential,
    /// The header is not of the form `Bearer <token>`.
    MalformedCredential,
    /// The token names no live session for this address.
    InvalidCredential,
    /// The session store could not be reached.
    Unavailable,
}

/// The token of a `Bearer <token>` header value, if it has that form.
pub open spec fn bearer_of(header: Seq<char>) -> Option<Seq<char>> {
    if header.len() >= 7 && header.subrange(0, 7) == "Bearer "@ {
        Some(header.subrange(7, header.len() as int))
    } else {
        None
    }
}

/// The token carried by a header value, or the rejection of a header that carries none.
pub open spec fn token_outcome(header: Option<Seq<char>>) -> Result<Seq<char>, GateRejection> {
    match header {
        None => Err(GateRejection::MissingCredential),
        Some(h) => match bearer_of(h) {
            None => Err(GateRejection::MalformedCredential),
            Some(t) => Ok(t),
        },
    }
}

/// The view of an optional header value.
pub open spec fn header_view(header: Option<&str>) -> Option<Seq<char>> {
    match header {
        None => None,
        Some(h) => Some(h@),
    }
}

/// Extracts the bearer token from an `Authorization` header value.
pub fn bearer_token(header: Option<&str>) -> (r: Result<String, GateRejection>)
    ensures
        match token_outcome(header_view(header)) {
            Ok(t) => r matches Ok(s) && s@ == t,
            Err(e) => r == Err::<String, GateRejection>(e),
        },
{
    match header {
        None => Err(GateRejection::MissingCredential),
        Some(h) => {
            let n = h.unicode_len();
            if n < 7 {
                return Err(GateRejection::MalformedCredential);
            }
            let scheme = String::from_str(h.substring_char(0, 7));
            if scheme == String::from_str("Bearer ") {
                Ok(String::from_str(h.substring_char(7, n)))
            } else {
                Err(GateRejection::MalformedCredential)
            }
        },
    }
}

/// Authorizes a request: the header must carry a bearer token whose session
/// is live and was issued to `peer_ip`. A session presented from another
/// address is revoked. Every session failure is the same rejection.
pub fn authorize(store: &mut MemoryStore, header: Option<&str>, peer_ip: &str, now: u64) -> (r:
    Result<AuthUser, GateRejection>)
    requires
        old(store).wf(),
    ensures
        final(store).wf(),
        match token_outcome(header_view(header)) {
            Err(e) => r == Err::<AuthUser, GateRejection>(e) && final(store)@ == old(store)@,
            Ok(t) => {
                let (m, v) = validate_effect(old(store)@, t, peer_ip@, now);
                &&& final(store)@ == m
                &&& match v {
                    Ok(u) => r == Ok::<AuthUser, GateRejection>(AuthUser { user_id: u }),
                    Err(_) => r == Err::<AuthUser, GateRejection>(
                        GateRejection::InvalidCredential,
                    ),
                }
            },
        },
{
    let token = bearer_token(header)?;
    match validate_session(store, token.as_str(), peer_ip, now) {
        Ok(user_id) => Ok(AuthUser { user_id }),
        Err(_) => Err(GateRejection::InvalidCredential),
    }
}

} // verus!
