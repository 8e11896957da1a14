//! Session issuance and validation. Sessions live for a fixed time from
//! issuance and are pinned to the client address they were issued to: a
//! token presented from any other address is revoked on the spot.

use crate::credential::random_bytes;
use crate::store::{live_record, opt_view, MemoryStore, SessionData, SessionView, StoredView};
use vstd::prelude::*;

verus! {

/// How long a session stays valid after issuance, in seconds.
pub const SESSION_TTL_SECS: u64 = 86400;

/// Why a presented token was not accepted. Callers outside this crate are
/// meant to see one undifferentiated rejection; the variants are kept for
/// diagnostics only.
#[derive(PartialEq, Eq, Structural, Debug, Clone, Copy)]
pub enum Rejection {
    /// No live session under the token: never issued, expired or revoked.
    NoSession,
    /// The session was presented from another address and has been revoked.
    IpMismatch,
}

/// The store key under which the session of `token` is kept.
pub open spec fn session_key_of(token: Seq<char>) -> Seq<char> {
    "session:"@ + token
}

/// The store after a session for `user_id` at `ip` is issued under `token`.
pub open spec fn issue_effect(
    m: Map<Seq<char>, StoredView>,
    token: Seq<char>,
    user_id: i32,
    ip: Seq<char>,
    now: u64,
) -> Map<Seq<char>, StoredView> {
    m.insert(
        session_key_of(token),
        StoredView {
            record: SessionView { user_id, ip },
            expires_at: (now + SESSION_TTL_SECS) as u64,
        },
    )
}

/// The store after validating `token` from `ip` at `now`, and the outcome.
pub open spec fn validate_effect(
    m: Map<Seq<char>, StoredView>,
    token: Seq<char>,
    ip: Seq<char>,
    now: u64,
) -> (Map<Seq<char>, StoredView>, Result<i32, Rejection>) {
    let key = session_key_of(token);
    match live_record(m, key, now) {
        None => (m, Err(Rejection::NoSession)),
        Some(rec) => if rec.ip == ip {
            (m, Ok(rec.user_id))
        } else {
            (m.remove(key), Err(Rejection::IpMismatch))
        },
    }
}

/// The lowercase hexadecimal digit of a value below 16.
pub open spec fn hex_digit(n: int) -> char {
    seq!['0', '1', '2', '3', '4', '5', '6', '7', '8', '9', 'a', 'b', 'c', 'd', 'e', 'f'][n]
}

/// Bytes as lowercase hexadecimal, two digits per byte, high digit first.
pub open spec fn hex_of(bytes: Seq<u8>) -> Seq<char>
    decreases bytes.len(),
{
    if bytes.len() == 0 {
        Seq::empty()
    } else {
        seq![hex_digit(bytes[0] as int / 16), hex_digit(bytes[0] as int % 16)] + hex_of(bytes.drop_first())
    }
}

/// The hyphenated text of a UUID's sixteen bytes: groups of 4, 2, 2, 2 and
/// 6 bytes in hexadecimal, joined by hyphens.
pub open spec fn uuid_hyphenated(bytes: Seq<u8>) -> Seq<char> {
    hex_of(bytes.subrange(0, 4)) + seq!['-'] + hex_of(bytes.subrange(4, 6)) + seq!['-'] + hex_of(
        bytes.subrange(6, 8),
    ) + seq!['-'] + hex_of(bytes.subrange(8, 10)) + seq!['-'] + hex_of(bytes.subrange(10, 16))
}

/// Hexadecimal text has two digits per byte.
pub proof fn lemma_hex_len(bytes: Seq<u8>)
    ensures
        hex_of(bytes).len() == 2 * bytes.len(),
    decreases bytes.len(),
{
    if bytes.len() > 0 {
        lemma_hex_len(bytes.drop_first());
    }
}

/// The hyphenated text of sixteen bytes has 36 characters.
pub proof fn lemma_uuid_len(bytes: Seq<u8>)
    requires
        bytes.len() == 16,
    ensures
        uuid_hyphenated(bytes).len() == 36,
{
    lemma_hex_len(bytes.subrange(0, 4));
    lemma_hex_len(bytes.subrange(4, 6));
    lemma_hex_len(bytes.subrange(6, 8));
    lemma_hex_len(bytes.subrange(8, 10));
    lemma_hex_len(bytes.subrange(10, 16));
}

/// Relies on `Uuid::from_slice` and the `Display` rendering of a `Uuid`,
/// which is the lowercase hyphenated form of its sixteen bytes in order.
#[verifier::external_body]
fn uuid_text(bytes: &Vec<u8>) -> (r: String)
    requires
        bytes@.len() == 16,
    ensures
        r@ == uuid_hyphenated(bytes@),
{
    uuid::Uuid::from_slice(bytes).map(|u| u.to_string()).unwrap_or_default()
}

/// The store key of a token: the token behind the `session:` namespace.
pub fn session_key(token: &str) -> (r: String)
    ensures
        r@ == session_key_of(token@),
{
    let prefix = String::from_str("session:");
    prefix.concat(token)
}

/// A new session for `user_id` bound to `ip`, not yet stored, whose token
/// is the text of the sixteen random `bytes`: the token, its store key, and
/// the record to keep under that key.
pub fn new_session_from(bytes: &Vec<u8>, user_id: i32, ip: String) -> (r: (
    String,
    String,
    SessionData,
))
    requires
        bytes@.len() == 16,
    ensures
        r.0@ == uuid_hyphenated(bytes@),
        r.0@.len() == 36,
        r.1@ == session_key_of(r.0@),
        r.2@ == (SessionView { user_id, ip: ip@ }),
{
    proof {
        lemma_uuid_len(bytes@);
    }
    let token = uuid_text(bytes);
    let key = session_key(token.as_str());
    (token, key, SessionData { user_id, ip })
}

/// A new session for `user_id` bound to `ip`, not yet stored, under a token
/// of 128 fresh random bits: the token, its store key, and the record.
pub fn new_session(user_id: i32, ip: String) -> (r: (String, String, SessionData))
    ensures
        r.0@.len() == 36,
        r.1@ == session_key_of(r.0@),
        r.2@ == (SessionView { user_id, ip: ip@ }),
{
    let bytes = random_bytes();
    new_session_from(&bytes, user_id, ip)
}

/// Issues a session for `user_id` bound to `ip` under the token made from
/// the sixteen random `bytes`, valid for `SESSION_TTL_SECS` from `now`.
pub fn create_session_from(
    store: &mut MemoryStore,
    bytes: &Vec<u8>,
    user_id: i32,
    ip: String,
    now: u64,
) -> (r: String)
    requires
        old(store).wf(),
        bytes@.len() == 16,
        now + SESSION_TTL_SECS <= u64::MAX,
    ensures
        final(store).wf(),
        r@ == uuid_hyphenated(bytes@),
        r@.len() == 36,
        final(store)@ == issue_effect(old(store)@, r@, user_id, ip@, now),
{
    let (token, key, data) = new_session_from(bytes, user_id, ip);
    store.put(key, data, SESSION_TTL_SECS, now);
    token
}

/// Issues a new session for `user_id` bound to the client address `ip`,
/// valid for `SESSION_TTL_SECS` from `now`, and returns its token.
pub fn create_session(store: &mut MemoryStore, user_id: i32, ip: String, now: u64) -> (r: String)
    requires
        old(store).wf(),
        now + SESSION_TTL_SECS <= u64::MAX,
    ensures
        final(store).wf(),
        r@.len() == 36,
        final(store)@ == issue_effect(old(store)@, r@, user_id, ip@, now),
{
    let bytes = random_bytes();
    create_session_from(store, &bytes, user_id, ip, now)
}

/// How strictly a session is bound to the address it was issued to.
#[derive(PartialEq, Eq, Structural, Debug, Clone, Copy)]
pub enum IpBinding {
    /// A session presented from another address is revoked and rejected.
    Strict,
    /// The address is not enforced: a live session is accepted from any
    /// address.
    Advisory,
}

/// The store and outcome of validating under `policy`.
pub open spec fn validate_effect_with(
    m: Map<Seq<char>, StoredView>,
    token: Seq<char>,
    ip: Seq<char>,
    now: u64,
    policy: IpBinding,
) -> (Map<Seq<char>, StoredView>, Result<i32, Rejection>) {
    match policy {
        IpBinding::Strict => validate_effect(m, token, ip, now),
        IpBinding::Advisory => match live_record(m, session_key_of(token), now) {
            None => (m, Err(Rejection::NoSession)),
            Some(rec) => (m, Ok(rec.user_id)),
        },
    }
}

/// Validates `token` presented from `current_ip` at `now` under the strict
/// binding: a live session from the same address yields its user; an
/// unknown or expired token is rejected; a live session from another
/// address is deleted and rejected.
pub fn validate_session(store: &mut MemoryStore, token: &str, current_ip: &str, now: u64) -> (r:
    Result<i32, Rejection>)
    requires
        old(store).wf(),
    ensures
        final(store).wf(),
        (final(store)@, r) == validate_effect(old(store)@, token@, current_ip@, now),
{
    validate_session_with_policy(store, token, current_ip, now, IpBinding::Strict)
}

/// Validates `token` presented from `current_ip` at `now` under `policy`.
/// Reading never extends a session's lifetime.
pub fn validate_session_with_policy(
    store: &mut MemoryStore,
    token: &str,
    current_ip: &str,
    now: u64,
    policy: IpBinding,
) -> (r: Result<i32, Rejection>)
    requires
        old(store).wf(),
    ensures
        final(store).wf(),
        (final(store)@, r) == validate_effect_with(old(store)@, token@, current_ip@, now, policy),
{
    let key = session_key(token);
    let found = store.get(&key, now);
    match session_verdict(&found, current_ip, policy) {
        Verdict::Accept(user_id) => Ok(user_id),
        Verdict::Reject => Err(Rejection::NoSession),
        Verdict::RevokeAndReject => {
            store.delete(&key);
            Err(Rejection::IpMismatch)
        },
    }
}

/// What to do with a presented token, given the live record found for it.
#[derive(PartialEq, Eq, Structural, Debug, Clone, Copy)]
pub enum Verdict {
    /// The session is valid: the request acts as this user.
    Accept(i32),
    /// No live session: reject, leave the store as it is.
    Reject,
    /// The address changed: delete the session, then reject.
    RevokeAndReject,
}

/// The verdict on a looked-up record.
pub open spec fn verdict_of(found: Option<SessionView>, current_ip: Seq<char>, policy: IpBinding) -> Verdict {
    match found {
        None => Verdict::Reject,
        Some(rec) => if rec.ip == current_ip || policy == IpBinding::Advisory {
            Verdict::Accept(rec.user_id)
        } else {
            Verdict::RevokeAndReject
        },
    }
}

/// Decides on a presented token from the live record that a store returned
/// for it, so that a store kept outside this crate can apply the same
/// policy: accept on the issuing address, and on any other revoke under
/// the strict binding or accept under the advisory one.
pub fn session_verdict(found: &Option<SessionData>, current_ip: &str, policy: IpBinding) -> (r:
    Verdict)
    ensures
        r == verdict_of(opt_view(*found), current_ip@, policy),
{
    match found {
        None => Verdict::Reject,
        Some(data) => {
            if data.ip == String::from_str(current_ip) || policy == IpBinding::Advisory {
                Verdict::Accept(data.user_id)
            } else {
                Verdict::RevokeAndReject
            }
        },
    }
}

/// Different tokens are kept under different keys.
pub proof fn lemma_session_key_injective(t1: Seq<char>, t2: Seq<char>)
    requires
        t1 != t2,
    ensures
        session_key_of(t1) != session_key_of(t2),
{
    reveal_strlit("session:");
    assert(session_key_of(t1).subrange(8, session_key_of(t1).len() as int) =~= t1);
    assert(session_key_of(t2).subrange(8, session_key_of(t2).len() as int) =~= t2);
}

/// A freshly issued session validates from its own address; presenting it
/// from another address rejects it and revokes it, so that it is rejected
/// afterwards from the original address too.
pub proof fn lemma_issue_validate_revoke(
    m: Map<Seq<char>, StoredView>,
    token: Seq<char>,
    user_id: i32,
    ip: Seq<char>,
    other_ip: Seq<char>,
    now: u64,
    t1: u64,
    t2: u64,
    t3: u64,
)
    requires
        now + SESSION_TTL_SECS <= u64::MAX,
        t1 < now + SESSION_TTL_SECS,
        t2 < now + SESSION_TTL_SECS,
        other_ip != ip,
    ensures
        ({
            let m1 = issue_effect(m, token, user_id, ip, now);
            let (m2, r2) = validate_effect(m1, token, other_ip, t2);
            &&& validate_effect(m1, token, ip, t1) == (m1, Ok::<i32, Rejection>(user_id))
            &&& r2 is Err
            &&& validate_effect(m2, token, ip, t3).1 is Err
        }),
{
}

/// Once its lifetime has passed, a session is rejected from any address,
/// with the same outcome as a token that was never issued.
pub proof fn lemma_expired_session_rejected(
    m: Map<Seq<char>, StoredView>,
    token: Seq<char>,
    unknown: Seq<char>,
    user_id: i32,
    ip: Seq<char>,
    presenting_ip: Seq<char>,
    now: u64,
    later: u64,
)
    requires
        now + SESSION_TTL_SECS <= u64::MAX,
        later >= now + SESSION_TTL_SECS,
        !issue_effect(m, token, user_id, ip, now).contains_key(session_key_of(unknown)),
    ensures
        ({
            let m1 = issue_effect(m, token, user_id, ip, now);
            &&& validate_effect(m1, token, presenting_ip, later) == (m1, Err::<i32, Rejection>(
                Rejection::NoSession,
            ))
            &&& validate_effect(m1, token, presenting_ip, later).1 == validate_effect(
                m1,
                unknown,
                presenting_ip,
                later,
            ).1
        }),
{
}

/// A token with nothing stored under it is rejected, and the store is left
/// as it was.
pub proof fn lemma_unknown_token_rejected(
    m: Map<Seq<char>, StoredView>,
    token: Seq<char>,
    presenting_ip: Seq<char>,
    now: u64,
)
    requires
        !m.contains_key(session_key_of(token)),
    ensures
        validate_effect(m, token, presenting_ip, now) == (m, Err::<i32, Rejection>(
            Rejection::NoSession,
        )),
{
}

/// Two sessions issued under distinct tokens, for the same user or not, are
/// independent: each validates from its own address while it is live.
pub proof fn lemma_independent_sessions(
    m: Map<Seq<char>, StoredView>,
    token1: Seq<char>,
    token2: Seq<char>,
    user1: i32,
    user2: i32,
    ip1: Seq<char>,
    ip2: Seq<char>,
    now1: u64,
    now2: u64,
    later: u64,
)
    requires
        token1 != token2,
        now1 + SESSION_TTL_SECS <= u64::MAX,
        now2 + SESSION_TTL_SECS <= u64::MAX,
        later < now1 + SESSION_TTL_SECS,
        later < now2 + SESSION_TTL_SECS,
    ensures
        ({
            let m2 = issue_effect(
                issue_effect(m, token1, user1, ip1, now1),
                token2,
                user2,
                ip2,
                now2,
            );
            &&& validate_effect(m2, token1, ip1, later) == (m2, Ok::<i32, Rejection>(user1))
            &&& validate_effect(m2, token2, ip2, later) == (m2, Ok::<i32, Rejection>(user2))
        }),
{
    lemma_session_key_injective(token1, token2);
}

/// The value of a lowercase hexadecimal digit.
pub open spec fn hex_value(c: char) -> int {
    if c == '0' { 0 } else if c == '1' { 1 } else if c == '2' { 2 } else if c == '3' { 3 }
    else if c == '4' { 4 } else if c == '5' { 5 } else if c == '6' { 6 } else if c == '7' { 7 }
    else if c == '8' { 8 } else if c == '9' { 9 } else if c == 'a' { 10 } else if c == 'b' { 11 }
    else if c == 'c' { 12 } else if c == 'd' { 13 } else if c == 'e' { 14 } else { 15 }
}

/// Each value below 16 is read back from its digit.
pub proof fn lemma_hex_digit_inverse(n: int)
    requires
        0 <= n < 16,
    ensures
        hex_value(hex_digit(n)) == n,
{
    let d = seq!['0', '1', '2', '3', '4', '5', '6', '7', '8', '9', 'a', 'b', 'c', 'd', 'e', 'f'];
    assert(hex_digit(n) == d[n]);
    if n == 0 {} else if n == 1 {} else if n == 2 {} else if n == 3 {} else if n == 4 {}
    else if n == 5 {} else if n == 6 {} else if n == 7 {} else if n == 8 {} else if n == 9 {}
    else if n == 10 {} else if n == 11 {} else if n == 12 {} else if n == 13 {}
    else if n == 14 {} else {}
}

/// Equal hexadecimal texts of equally long byte sequences come from equal
/// bytes.
pub proof fn lemma_hex_injective(a: Seq<u8>, b: Seq<u8>)
    requires
        a.len() == b.len(),
        hex_of(a) == hex_of(b),
    ensures
        a == b,
    decreases a.len(),
{
    if a.len() > 0 {
        let ha = hex_of(a);
        assert(ha[0] == hex_digit(a[0] as int / 16));
        assert(ha[1] == hex_digit(a[0] as int % 16));
        assert(hex_of(b)[0] == hex_digit(b[0] as int / 16));
        assert(hex_of(b)[1] == hex_digit(b[0] as int % 16));
        lemma_hex_digit_inverse(a[0] as int / 16);
        lemma_hex_digit_inverse(a[0] as int % 16);
        lemma_hex_digit_inverse(b[0] as int / 16);
        lemma_hex_digit_inverse(b[0] as int % 16);
        assert(a[0] == b[0]);
        assert(hex_of(a.drop_first()) =~= ha.subrange(2, ha.len() as int));
        assert(hex_of(b.drop_first()) =~= hex_of(b).subrange(2, ha.len() as int));
        lemma_hex_injective(a.drop_first(), b.drop_first());
        assert(a =~= seq![a[0]] + a.drop_first());
        assert(b =~= seq![b[0]] + b.drop_first());
    }
}

/// Distinct byte draws give distinct token texts.
pub proof fn lemma_uuid_injective(a: Seq<u8>, b: Seq<u8>)
    requires
        a.len() == 16,
        b.len() == 16,
        a != b,
    ensures
        uuid_hyphenated(a) != uuid_hyphenated(b),
{
    if uuid_hyphenated(a) == uuid_hyphenated(b) {
        let ua = uuid_hyphenated(a);
        let ub = uuid_hyphenated(b);
        lemma_hex_len(a.subrange(0, 4));
        lemma_hex_len(a.subrange(4, 6));
        lemma_hex_len(a.subrange(6, 8));
        lemma_hex_len(a.subrange(8, 10));
        lemma_hex_len(a.subrange(10, 16));
        lemma_hex_len(b.subrange(0, 4));
        lemma_hex_len(b.subrange(4, 6));
        lemma_hex_len(b.subrange(6, 8));
        lemma_hex_len(b.subrange(8, 10));
        lemma_hex_len(b.subrange(10, 16));
        assert(ua.subrange(0, 8) =~= hex_of(a.subrange(0, 4)));
        assert(ub.subrange(0, 8) =~= hex_of(b.subrange(0, 4)));
        assert(ua.subrange(9, 13) =~= hex_of(a.subrange(4, 6)));
        assert(ub.subrange(9, 13) =~= hex_of(b.subrange(4, 6)));
        assert(ua.subrange(14, 18) =~= hex_of(a.subrange(6, 8)));
        assert(ub.subrange(14, 18) =~= hex_of(b.subrange(6, 8)));
        assert(ua.subrange(19, 23) =~= hex_of(a.subrange(8, 10)));
        assert(ub.subrange(19, 23) =~= hex_of(b.subrange(8, 10)));
        assert(ua.subrange(24, 36) =~= hex_of(a.subrange(10, 16)));
        assert(ub.subrange(24, 36) =~= hex_of(b.subrange(10, 16)));
        lemma_hex_injective(a.subrange(0, 4), b.subrange(0, 4));
        lemma_hex_injective(a.subrange(4, 6), b.subrange(4, 6));
        lemma_hex_injective(a.subrange(6, 8), b.subrange(6, 8));
        lemma_hex_injective(a.subrange(8, 10), b.subrange(8, 10));
        lemma_hex_injective(a.subrange(10, 16), b.subrange(10, 16));
        assert forall|i: int| 0 <= i < 16 implies a[i] == b[i] by {
            if i < 4 {
                assert(a[i] == a.subrange(0, 4)[i]);
                assert(b[i] == b.subrange(0, 4)[i]);
            } else if i < 6 {
                assert(a[i] == a.subrange(4, 6)[i - 4]);
                assert(b[i] == b.subrange(4, 6)[i - 4]);
            } else if i < 8 {
                assert(a[i] == a.subrange(6, 8)[i - 6]);
                assert(b[i] == b.subrange(6, 8)[i - 6]);
            } else if i < 10 {
                assert(a[i] == a.subrange(8, 10)[i - 8]);
                assert(b[i] == b.subrange(8, 10)[i - 8]);
            } else {
                assert(a[i] == a.subrange(10, 16)[i - 10]);
                assert(b[i] == b.subrange(10, 16)[i - 10]);
            }
        }
        assert(a =~= b);
    }
}

/// Two sessions issued from distinct random draws, for the same user or
/// not, get distinct tokens, and each validates from its own address while
/// it is live: the second issue never overwrites the first.
pub proof fn lemma_distinct_draws_independent(
    m: Map<Seq<char>, StoredView>,
    bytes1: Seq<u8>,
    bytes2: Seq<u8>,
    user1: i32,
    user2: i32,
    ip1: Seq<char>,
    ip2: Seq<char>,
    now1: u64,
    now2: u64,
    later: u64,
)
    requires
        bytes1.len() == 16,
        bytes2.len() == 16,
        bytes1 != bytes2,
        now1 + SESSION_TTL_SECS <= u64::MAX,
        now2 + SESSION_TTL_SECS <= u64::MAX,
        later < now1 + SESSION_TTL_SECS,
        later < now2 + SESSION_TTL_SECS,
    ensures
        ({
            let t1 = uuid_hyphenated(bytes1);
            let t2 = uuid_hyphenated(bytes2);
            let m2 = issue_effect(issue_effect(m, t1, user1, ip1, now1), t2, user2, ip2, now2);
            &&& t1 != t2
            &&& validate_effect(m2, t1, ip1, later) == (m2, Ok::<i32, Rejection>(user1))
            &&& validate_effect(m2, t2, ip2, later) == (m2, Ok::<i32, Rejection>(user2))
        }),
{
    lemma_uuid_injective(bytes1, bytes2);
    lemma_independent_sessions(
        m,
        uuid_hyphenated(bytes1),
        uuid_hyphenated(bytes2),
        user1,
        user2,
        ip1,
        ip2,
        now1,
        now2,
        later,
    );
}

} // verus!
