use session_security::access::{authorize, authorize_at, logout, AccessDecision, LogoutOutcome};
use session_security::fingerprint::{derive_fingerprint, IpAddress, RequestFacts};
use session_security::session_protection::{
    LoginRequest, LogoutRequest, RejectReason, SessionStore,
};
use session_security::text::same_text;
use session_security::time::{
    is_older_than, Timestamp, DEFAULT_SESSION_TIMEOUT_SECS, DEFAULT_TOKEN_TTL_SECS, NANOS_PER_SEC,
};

fn at(secs: i64) -> Timestamp {
    Timestamp::new(secs, 0)
}

fn office() -> IpAddress {
    IpAddress::V4(10, 0, 0, 1)
}

fn store_with_session() -> SessionStore {
    let mut store = SessionStore::new();
    store
        .create_at(
            "s1".to_string(),
            "user123".to_string(),
            "user".to_string(),
            office(),
            "Chrome".to_string(),
            at(1_000),
        )
        .unwrap();
    store
}

#[test]
fn accepted_request_is_allowed_with_its_identity() {
    let mut store = store_with_session();
    match authorize_at(&mut store, "s1", office(), "Chrome", at(1_100)) {
        AccessDecision::Allow { user_id, username } => {
            assert_eq!(user_id, "user123");
            assert_eq!(username, "user");
        }
        other => panic!("unexpected decision {:?}", other),
    }
    assert_eq!(store.get_session("s1").unwrap().last_activity, at(1_100));
}

#[test]
fn mismatch_is_denied_and_dead_sessions_reauthenticate() {
    let mut store = store_with_session();
    assert!(matches!(
        authorize_at(&mut store, "nobody", office(), "Chrome", at(1_100)),
        AccessDecision::Reauthenticate(RejectReason::NotFound)
    ));
    assert!(matches!(
        authorize_at(&mut store, "s1", office(), "Chrome", at(1_000 + 3_601)),
        AccessDecision::Reauthenticate(RejectReason::Expired)
    ));
    assert!(matches!(
        authorize_at(&mut store, "s1", office(), "Safari", at(1_100)),
        AccessDecision::Deny(RejectReason::HijackUserAgentMismatch)
    ));
    assert!(matches!(
        authorize_at(&mut store, "s1", office(), "Chrome", at(1_100)),
        AccessDecision::Reauthenticate(RejectReason::Invalidated)
    ));
    let mut store = store_with_session();
    assert!(matches!(
        authorize_at(&mut store, "s1", IpAddress::V4(10, 0, 0, 2), "Chrome", at(1_100)),
        AccessDecision::Deny(RejectReason::HijackIpMismatch)
    ));
    assert!(!store.get_session("s1").unwrap().is_valid);
}

#[test]
fn clock_reading_authorization() {
    let mut store = SessionStore::new();
    let id = store
        .create("user123".to_string(), "user".to_string(), office(), "Chrome".to_string())
        .unwrap();
    assert!(matches!(
        authorize(&mut store, &id, office(), "Chrome"),
        AccessDecision::Allow { .. }
    ));
    assert!(matches!(
        authorize(&mut store, &id, office(), "Opera"),
        AccessDecision::Deny(RejectReason::HijackUserAgentMismatch)
    ));
    assert!(matches!(
        authorize(&mut store, &id, office(), "Chrome"),
        AccessDecision::Reauthenticate(RejectReason::Invalidated)
    ));
}

#[test]
fn logout_needs_the_owner() {
    let mut store = store_with_session();
    let request = LogoutRequest { user_id: "someone-else".to_string() };
    assert_eq!(logout(&mut store, "s1", &request.user_id), LogoutOutcome::NotOwner);
    assert!(store.get_session("s1").unwrap().is_valid);
    assert_eq!(logout(&mut store, "s9", "user123"), LogoutOutcome::NotFound);
    assert_eq!(logout(&mut store, "s1", "user123"), LogoutOutcome::LoggedOut);
    assert!(!store.get_session("s1").unwrap().is_valid);
    assert_eq!(logout(&mut store, "s1", "user123"), LogoutOutcome::LoggedOut);
    assert!(!store.get_session("s1").unwrap().is_valid);
}

#[test]
fn request_bodies_hold_their_fields() {
    let login = LoginRequest { username: "user".to_string(), password: "password".to_string() };
    assert_eq!(login.username, "user");
    assert_eq!(login.password, "password");
    assert_eq!(format!("{:?}", LogoutRequest { user_id: "u".to_string() }), "LogoutRequest { user_id: \"u\" }");
}

#[test]
fn fingerprint_comes_from_the_transport() {
    let facts = RequestFacts {
        peer_ip: Some(office()),
        user_agent: Some("Chrome".to_string()),
        simulated_ip: None,
        simulated_user_agent: None,
    };
    let print = derive_fingerprint(facts, false);
    assert_eq!(print.ip, office());
    assert_eq!(print.user_agent, "Chrome");
}

#[test]
fn fingerprint_defaults() {
    let facts = RequestFacts {
        peer_ip: None,
        user_agent: None,
        simulated_ip: None,
        simulated_user_agent: None,
    };
    let print = derive_fingerprint(facts, true);
    assert_eq!(print.ip, IpAddress::V4(0, 0, 0, 0));
    assert_eq!(print.ip, IpAddress::unspecified());
    assert_eq!(print.user_agent, "unknown");
}

#[test]
fn simulation_headers_count_only_when_allowed() {
    let facts = || RequestFacts {
        peer_ip: Some(office()),
        user_agent: Some("Chrome".to_string()),
        simulated_ip: Some(IpAddress::V4(192, 168, 1, 9)),
        simulated_user_agent: Some("Robot".to_string()),
    };
    let closed = derive_fingerprint(facts(), false);
    assert_eq!(closed.ip, office());
    assert_eq!(closed.user_agent, "Chrome");
    let open = derive_fingerprint(facts(), true);
    assert_eq!(open.ip, IpAddress::V4(192, 168, 1, 9));
    assert_eq!(open.user_agent, "Robot");
    let partly = derive_fingerprint(
        RequestFacts {
            peer_ip: None,
            user_agent: Some("Chrome".to_string()),
            simulated_ip: None,
            simulated_user_agent: Some("Robot".to_string()),
        },
        true,
    );
    assert_eq!(partly.ip, IpAddress::V4(0, 0, 0, 0));
    assert_eq!(partly.user_agent, "Robot");
}

#[test]
fn age_is_measured_in_nanoseconds() {
    assert_eq!(NANOS_PER_SEC, 1_000_000_000);
    assert_eq!(DEFAULT_SESSION_TIMEOUT_SECS, 3_600);
    assert_eq!(DEFAULT_TOKEN_TTL_SECS, 86_400);
    assert!(!is_older_than(Timestamp::new(10, 0), Timestamp::new(0, 0), 10));
    assert!(is_older_than(Timestamp::new(10, 1), Timestamp::new(0, 0), 10));
    assert!(!is_older_than(Timestamp::new(10, 5), Timestamp::new(0, 5), 10));
    assert!(is_older_than(Timestamp::new(11, 0), Timestamp::new(0, 999_999_999), 10));
    assert!(!is_older_than(Timestamp::new(10, 999_999_999), Timestamp::new(1, 0), 10));
    assert!(is_older_than(Timestamp::new(0, 1), Timestamp::new(0, 0), 0));
    assert!(!is_older_than(Timestamp::new(0, 0), Timestamp::new(0, 0), 0));
}

#[test]
fn age_may_be_negative_and_huge() {
    assert!(!is_older_than(Timestamp::new(0, 0), Timestamp::new(100, 0), 0));
    assert!(!is_older_than(Timestamp::new(i64::MIN, 0), Timestamp::new(i64::MAX, u32::MAX), 0));
    assert!(is_older_than(
        Timestamp::new(i64::MAX, u32::MAX),
        Timestamp::new(i64::MIN, 0),
        u64::MAX
    ));
    assert!(!is_older_than(Timestamp::new(i64::MAX, 0), Timestamp::new(0, 0), u64::MAX));
    assert!(is_older_than(Timestamp::new(1, 0), Timestamp::new(0, 1_999_999_999), 0) == false);
    assert!(is_older_than(Timestamp::new(2, 0), Timestamp::new(0, 1_999_999_999), 0));
}

#[test]
fn text_equality() {
    assert!(same_text("", ""));
    assert!(same_text("Chrome", "Chrome"));
    assert!(!same_text("Chrome", "chrome"));
    assert!(!same_text("Chrome", "Chrome "));
    assert!(same_text("naïve ✓", "naïve ✓"));
    assert!(!same_text("naïve", "naive"));
}
