use nugget_sync_server::gate::{authorize, bearer_token, AuthUser, GateRejection};
use nugget_sync_server::session::{
    create_session, session_key, session_verdict, validate_session, validate_session_with_policy,
    IpBinding, Rejection, Verdict, SESSION_TTL_SECS,
};
use nugget_sync_server::store::{MemoryStore, SessionData};

fn record(user_id: i32, ip: &str) -> SessionData {
    SessionData { user_id, ip: ip.to_string() }
}

#[test]
fn issue_then_validate_then_revoke_scenario() {
    let mut store = MemoryStore::new();
    let token = create_session(&mut store, 42, "10.0.0.5".to_string(), 1_000);
    assert_eq!(validate_session(&mut store, &token, "10.0.0.5", 1_001), Ok(42));
    assert_eq!(
        validate_session(&mut store, &token, "10.0.0.9", 1_002),
        Err(Rejection::IpMismatch)
    );
    assert!(store.get(&session_key(&token), 1_003).is_none());
    assert_eq!(
        validate_session(&mut store, &token, "10.0.0.5", 1_004),
        Err(Rejection::NoSession)
    );
}

#[test]
fn repeated_validation_from_same_address_keeps_session() {
    let mut store = MemoryStore::new();
    let token = create_session(&mut store, 7, "192.168.1.2".to_string(), 0);
    for t in 0..5u64 {
        assert_eq!(validate_session(&mut store, &token, "192.168.1.2", t), Ok(7));
    }
}

#[test]
fn session_expires_after_ttl() {
    let mut store = MemoryStore::new();
    let token = create_session(&mut store, 3, "1.2.3.4".to_string(), 500);
    assert_eq!(
        validate_session(&mut store, &token, "1.2.3.4", 500 + SESSION_TTL_SECS - 1),
        Ok(3)
    );
    let expired = validate_session(&mut store, &token, "1.2.3.4", 500 + SESSION_TTL_SECS);
    let unknown =
        validate_session(&mut store, "nonexistent-token", "1.2.3.4", 500 + SESSION_TTL_SECS);
    assert_eq!(expired, Err(Rejection::NoSession));
    assert_eq!(expired, unknown);
}

#[test]
fn validation_does_not_extend_lifetime() {
    let mut store = MemoryStore::new();
    let token = create_session(&mut store, 3, "1.2.3.4".to_string(), 0);
    assert_eq!(validate_session(&mut store, &token, "1.2.3.4", SESSION_TTL_SECS - 1), Ok(3));
    assert_eq!(
        validate_session(&mut store, &token, "1.2.3.4", SESSION_TTL_SECS),
        Err(Rejection::NoSession)
    );
}

#[test]
fn unknown_token_is_rejected() {
    let mut store = MemoryStore::new();
    assert_eq!(
        validate_session(&mut store, "nonexistent-token", "8.8.8.8", 0),
        Err(Rejection::NoSession)
    );
}

#[test]
fn two_sessions_for_same_user_are_independent() {
    let mut store = MemoryStore::new();
    let a = create_session(&mut store, 9, "10.0.0.1".to_string(), 10);
    let b = create_session(&mut store, 9, "10.0.0.2".to_string(), 11);
    assert_ne!(a, b);
    assert_eq!(validate_session(&mut store, &a, "10.0.0.1", 12), Ok(9));
    assert_eq!(validate_session(&mut store, &b, "10.0.0.2", 12), Ok(9));
    assert_eq!(
        validate_session(&mut store, &a, "10.0.0.2", 13),
        Err(Rejection::IpMismatch)
    );
    assert_eq!(validate_session(&mut store, &b, "10.0.0.2", 13), Ok(9));
}

#[test]
fn token_is_a_hyphenated_uuid() {
    let mut store = MemoryStore::new();
    let token = create_session(&mut store, 1, "::1".to_string(), 0);
    assert_eq!(token.chars().count(), 36);
    assert_eq!(token.matches('-').count(), 4);
}

#[test]
fn session_key_has_namespace() {
    assert_eq!(session_key("abc"), "session:abc");
    assert_eq!(session_key(""), "session:");
}

#[test]
fn store_delete_twice_is_noop() {
    let mut store = MemoryStore::new();
    let key = "session:k".to_string();
    store.put(key.clone(), record(5, "1.1.1.1"), 100, 0);
    store.delete(&key);
    assert!(store.get(&key, 1).is_none());
    store.delete(&key);
    assert!(store.get(&key, 1).is_none());
    store.delete(&"never-there".to_string());
}

#[test]
fn store_put_is_last_write_wins() {
    let mut store = MemoryStore::new();
    let key = "session:k".to_string();
    store.put(key.clone(), record(5, "1.1.1.1"), 100, 0);
    store.put(key.clone(), record(6, "2.2.2.2"), 100, 0);
    let got = store.get(&key, 50).unwrap();
    assert_eq!(got.user_id, 6);
    assert_eq!(got.ip, "2.2.2.2");
}

#[test]
fn store_get_respects_deadline() {
    let mut store = MemoryStore::new();
    let key = "k".to_string();
    store.put(key.clone(), record(5, "1.1.1.1"), 100, 20);
    assert!(store.get(&key, 119).is_some());
    assert!(store.get(&key, 120).is_none());
    assert!(store.get(&"other".to_string(), 30).is_none());
}

#[test]
fn verdicts_on_found_records() {
    let strict = IpBinding::Strict;
    assert_eq!(session_verdict(&None, "1.1.1.1", strict), Verdict::Reject);
    assert_eq!(
        session_verdict(&Some(record(4, "1.1.1.1")), "1.1.1.1", strict),
        Verdict::Accept(4)
    );
    assert_eq!(
        session_verdict(&Some(record(4, "1.1.1.1")), "1.1.1.2", strict),
        Verdict::RevokeAndReject
    );
    assert_eq!(
        session_verdict(&Some(record(4, "1.1.1.1")), "1.1.1.2", IpBinding::Advisory),
        Verdict::Accept(4)
    );
    assert_eq!(session_verdict(&None, "1.1.1.1", IpBinding::Advisory), Verdict::Reject);
}

#[test]
fn bearer_header_parsing() {
    assert_eq!(bearer_token(None), Err(GateRejection::MissingCredential));
    assert_eq!(bearer_token(Some("Basic abc")), Err(GateRejection::MalformedCredential));
    assert_eq!(bearer_token(Some("Bearer")), Err(GateRejection::MalformedCredential));
    assert_eq!(bearer_token(Some("bearer abc")), Err(GateRejection::MalformedCredential));
    assert_eq!(bearer_token(Some("Bearer abc")), Ok("abc".to_string()));
    assert_eq!(bearer_token(Some("Bearer ")), Ok(String::new()));
}

#[test]
fn gate_authorizes_live_session_from_same_address() {
    let mut store = MemoryStore::new();
    let token = create_session(&mut store, 11, "10.1.1.1".to_string(), 0);
    let header = format!("Bearer {}", token);
    assert_eq!(
        authorize(&mut store, Some(&header), "10.1.1.1", 1),
        Ok(AuthUser { user_id: 11 })
    );
    assert_eq!(
        authorize(&mut store, Some(&header), "10.1.1.2", 2),
        Err(GateRejection::InvalidCredential)
    );
    assert_eq!(
        authorize(&mut store, Some(&header), "10.1.1.1", 3),
        Err(GateRejection::InvalidCredential)
    );
}

#[test]
fn gate_rejects_missing_and_malformed_headers() {
    let mut store = MemoryStore::new();
    let token = create_session(&mut store, 11, "10.1.1.1".to_string(), 0);
    assert_eq!(
        authorize(&mut store, None, "10.1.1.1", 1),
        Err(GateRejection::MissingCredential)
    );
    assert_eq!(
        authorize(&mut store, Some(&token), "10.1.1.1", 1),
        Err(GateRejection::MalformedCredential)
    );
    assert_eq!(
        authorize(&mut store, Some("Bearer nonexistent-token"), "10.1.1.1", 1),
        Err(GateRejection::InvalidCredential)
    );
}

#[test]
fn new_session_pairs_token_and_key() {
    let (token, key, data) = nugget_sync_server::session::new_session(5, "4.4.4.4".to_string());
    assert_eq!(key, format!("session:{}", token));
    assert_eq!(data.user_id, 5);
    assert_eq!(data.ip, "4.4.4.4");
}

#[test]
fn advisory_binding_accepts_other_address_without_revoking() {
    let mut store = MemoryStore::new();
    let token = create_session(&mut store, 8, "10.0.0.5".to_string(), 0);
    assert_eq!(
        validate_session_with_policy(&mut store, &token, "10.0.0.9", 1, IpBinding::Advisory),
        Ok(8)
    );
    assert_eq!(validate_session(&mut store, &token, "10.0.0.5", 2), Ok(8));
    assert_eq!(
        validate_session_with_policy(
            &mut store,
            &token,
            "10.0.0.9",
            SESSION_TTL_SECS,
            IpBinding::Advisory
        ),
        Err(Rejection::NoSession)
    );
}

#[test]
fn tokens_are_distinct_across_many_issues() {
    let mut store = MemoryStore::new();
    let mut seen = std::collections::HashSet::new();
    for i in 0..50 {
        let token = create_session(&mut store, i, "1.1.1.1".to_string(), 0);
        assert!(seen.insert(token));
    }
}

#[test]
fn token_text_of_known_bytes() {
    let bytes: Vec<u8> = (0u8..16).collect();
    let (token, key, data) =
        nugget_sync_server::session::new_session_from(&bytes, 3, "5.5.5.5".to_string());
    assert_eq!(token, "00010203-0405-0607-0809-0a0b0c0d0e0f");
    assert_eq!(key, "session:00010203-0405-0607-0809-0a0b0c0d0e0f");
    assert_eq!(data.user_id, 3);
    let high = vec![0xffu8; 16];
    let (t2, _, _) = nugget_sync_server::session::new_session_from(&high, 3, String::new());
    assert_eq!(t2, "ffffffff-ffff-ffff-ffff-ffffffffffff");
}

#[test]
fn sessions_from_distinct_draws_are_independent() {
    let mut store = MemoryStore::new();
    let b1 = vec![1u8; 16];
    let b2 = vec![2u8; 16];
    let t1 = nugget_sync_server::session::create_session_from(
        &mut store,
        &b1,
        9,
        "10.0.0.1".to_string(),
        0,
    );
    let t2 = nugget_sync_server::session::create_session_from(
        &mut store,
        &b2,
        9,
        "10.0.0.2".to_string(),
        0,
    );
    assert_eq!(t1, "01010101-0101-0101-0101-010101010101");
    assert_ne!(t1, t2);
    assert_eq!(validate_session(&mut store, &t1, "10.0.0.1", 1), Ok(9));
    assert_eq!(validate_session(&mut store, &t2, "10.0.0.2", 1), Ok(9));
}
