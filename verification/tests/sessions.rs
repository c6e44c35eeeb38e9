use std::time::Duration;

use kaguya::auth::sessions::Sessions;

fn insert(s: &mut Sessions, code: &str, state: &str, ttl: Duration) {
    s.insert(
        code.to_string(),
        format!("dc-{code}"),
        "https://idp/token".to_string(),
        state.to_string(),
        ttl,
    );
}

fn expected() -> Option<(String, String)> {
    Some(("dc-sess1".to_string(), "https://idp/token".to_string()))
}

#[test]
fn resolves_a_live_session_with_matching_state() {
    let mut s = Sessions::new();
    insert(&mut s, "sess1", "state-a", Duration::from_secs(300));
    assert_eq!(
        s.resolve("sess1", "state-a"),
        Some(("dc-sess1".to_string(), "https://idp/token".to_string()))
    );
}

#[test]
fn wrong_client_state_does_not_resolve() {
    let mut s = Sessions::new();
    insert(&mut s, "sess1", "state-a", Duration::from_secs(300));
    assert_eq!(s.resolve("sess1", "state-b"), None);
}

#[test]
fn unknown_session_does_not_resolve() {
    let mut s = Sessions::new();
    assert_eq!(s.resolve("nope", "state-a"), None);
}

#[test]
fn expired_session_does_not_resolve() {
    let mut s = Sessions::new();
    insert(&mut s, "sess1", "state-a", Duration::ZERO);
    assert_eq!(s.resolve("sess1", "state-a"), None);
}

#[test]
fn removed_session_is_gone() {
    let mut s = Sessions::new();
    insert(&mut s, "sess1", "state-a", Duration::from_secs(300));
    s.remove("sess1");
    assert_eq!(s.resolve("sess1", "state-a"), None);
}

fn insert_at(s: &mut Sessions, code: &str, secs: u64, now: u128) {
    s.insert_at(
        code.to_string(),
        format!("dc-{code}"),
        "https://idp/token".to_string(),
        "state-a".to_string(),
        Duration::from_secs(secs),
        now,
    );
}

#[test]
fn a_session_resolves_until_the_instant_it_expires() {
    let mut s = Sessions::new();
    insert_at(&mut s, "sess1", 2, 1_000);
    assert_eq!(s.resolve_at("sess1", "state-a", 2_000_000_999), expected());
    assert_eq!(s.resolve_at("sess1", "state-a", 2_000_001_000), None);
}

#[test]
fn a_failed_poll_leaves_the_session_alone() {
    let mut s = Sessions::new();
    insert_at(&mut s, "sess1", 60, 0);
    assert_eq!(s.resolve_at("sess1", "state-b", 1), None);
    assert_eq!(s.resolve_at("sess1", "state-a", 1), expected());
    assert_eq!(s.resolve_at("sess1", "state-a", 1), expected());
}

#[test]
fn expired_sessions_are_swept_and_others_stay() {
    let mut s = Sessions::new();
    insert_at(&mut s, "sess1", 60, 0);
    insert_at(&mut s, "sess2", 1, 0);
    insert_at(&mut s, "sess3", 60, 30_000_000_000);
    assert_eq!(s.resolve_at("sess2", "state-a", 500), None);
    assert_eq!(s.resolve_at("sess1", "state-a", 500), expected());
}

#[test]
fn a_session_code_that_comes_again_replaces_the_session() {
    let mut s = Sessions::new();
    insert_at(&mut s, "sess1", 60, 0);
    s.insert_at(
        "sess1".to_string(),
        "dc-new".to_string(),
        "https://other/token".to_string(),
        "state-a".to_string(),
        Duration::from_secs(60),
        0,
    );
    assert_eq!(
        s.resolve_at("sess1", "state-a", 1),
        Some(("dc-new".to_string(), "https://other/token".to_string()))
    );
}
