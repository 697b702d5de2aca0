use session_security::fingerprint::IpAddress;
use session_security::registry::RegistryError;
use session_security::session_protection::{
    Pinning, RejectReason, SessionData, SessionPolicy, SessionProtection, SessionStore, Verdict,
    SESSION_ID_LENGTH,
};
use session_security::time::Timestamp;

const HOUR: i64 = 3600;

fn at(secs: i64) -> Timestamp {
    Timestamp::new(secs, 0)
}

fn office() -> IpAddress {
    IpAddress::V4(10, 0, 0, 1)
}

fn elsewhere() -> IpAddress {
    IpAddress::V4(10, 0, 0, 2)
}

fn store_with_session(id: &str, now: Timestamp) -> SessionStore {
    let mut store = SessionStore::new();
    let made = store.create_at(
        id.to_string(),
        "user123".to_string(),
        "user".to_string(),
        office(),
        "Chrome".to_string(),
        now,
    );
    assert_eq!(made, Ok(()));
    store
}

#[test]
fn matching_fingerprint_is_accepted() {
    let mut store = store_with_session("s1", at(1_000));
    assert_eq!(store.validate("s1", office(), "Chrome", at(1_001)), Verdict::Accepted);
}

#[test]
fn ip_mismatch_burns_the_session() {
    let mut store = store_with_session("s1", at(1_000));
    assert_eq!(store.validate("s1", office(), "Chrome", at(1_001)), Verdict::Accepted);
    assert_eq!(
        store.validate("s1", elsewhere(), "Chrome", at(1_002)),
        Verdict::Rejected(RejectReason::HijackIpMismatch)
    );
    assert_eq!(
        store.validate("s1", office(), "Chrome", at(1_003)),
        Verdict::Rejected(RejectReason::Invalidated)
    );
    assert!(!store.get_session("s1").unwrap().is_valid);
}

#[test]
fn idle_for_61_minutes_is_expired() {
    let mut store = store_with_session("s1", at(1_000));
    assert_eq!(
        store.validate("s1", office(), "Chrome", at(1_000 + 61 * 60)),
        Verdict::Rejected(RejectReason::Expired)
    );
}

#[test]
fn new_session_has_the_given_identity() {
    let store = store_with_session("s1", Timestamp::new(1_000, 7));
    let data = store.get_session("s1").unwrap();
    assert_eq!(data.user_id, "user123");
    assert_eq!(data.username, "user");
    assert_eq!(data.ip_address, office());
    assert_eq!(data.user_agent, "Chrome");
    assert_eq!(data.created_at, Timestamp::new(1_000, 7));
    assert_eq!(data.last_activity, Timestamp::new(1_000, 7));
    assert!(data.is_valid);
}

#[test]
fn unknown_identifier_is_not_found() {
    let mut store = store_with_session("s1", at(1_000));
    assert_eq!(
        store.validate("s2", office(), "Chrome", at(1_001)),
        Verdict::Rejected(RejectReason::NotFound)
    );
    assert!(store.get_session("s2").is_none());
    assert_eq!(
        SessionStore::new().validate("s1", office(), "Chrome", at(1_001)),
        Verdict::Rejected(RejectReason::NotFound)
    );
}

#[test]
fn timeout_is_exclusive_of_the_hour() {
    let mut store = store_with_session("s1", Timestamp::new(1_000, 500));
    assert_eq!(
        store.validate("s1", office(), "Chrome", Timestamp::new(1_000 + HOUR, 500)),
        Verdict::Accepted
    );
    let mut store = store_with_session("s1", Timestamp::new(1_000, 500));
    assert_eq!(
        store.validate("s1", office(), "Chrome", Timestamp::new(1_000 + HOUR, 501)),
        Verdict::Rejected(RejectReason::Expired)
    );
}

#[test]
fn accepted_validation_extends_the_session() {
    let mut store = store_with_session("s1", at(0));
    assert_eq!(store.validate("s1", office(), "Chrome", at(3_000)), Verdict::Accepted);
    assert_eq!(store.get_session("s1").unwrap().last_activity, at(3_000));
    assert_eq!(store.get_session("s1").unwrap().created_at, at(0));
    assert_eq!(store.validate("s1", office(), "Chrome", at(6_000)), Verdict::Accepted);
    assert_eq!(
        store.validate("s1", office(), "Chrome", at(6_000 + HOUR + 1)),
        Verdict::Rejected(RejectReason::Expired)
    );
}

#[test]
fn rejected_validation_is_no_activity() {
    let mut store = store_with_session("s1", at(0));
    let _ = store.validate("s1", elsewhere(), "Chrome", at(100));
    assert_eq!(store.get_session("s1").unwrap().last_activity, at(0));
}

#[test]
fn user_agent_mismatch_burns_the_session() {
    let mut store = store_with_session("s1", at(1_000));
    assert_eq!(
        store.validate("s1", office(), "Firefox", at(1_001)),
        Verdict::Rejected(RejectReason::HijackUserAgentMismatch)
    );
    assert_eq!(
        store.validate("s1", office(), "Chrome", at(1_002)),
        Verdict::Rejected(RejectReason::Invalidated)
    );
}

#[test]
fn address_is_judged_before_user_agent() {
    let mut store = store_with_session("s1", at(1_000));
    assert_eq!(
        store.validate("s1", elsewhere(), "Firefox", at(1_001)),
        Verdict::Rejected(RejectReason::HijackIpMismatch)
    );
}

#[test]
fn expiry_is_judged_before_the_fingerprint() {
    let mut store = store_with_session("s1", at(1_000));
    let late = at(1_000 + 2 * HOUR);
    assert_eq!(
        store.validate("s1", elsewhere(), "Firefox", late),
        Verdict::Rejected(RejectReason::Expired)
    );
    assert!(store.get_session("s1").unwrap().is_valid);
    assert_eq!(
        store.validate("s1", office(), "Chrome", late),
        Verdict::Rejected(RejectReason::Expired)
    );
}

#[test]
fn invalidation_is_judged_before_expiry() {
    let mut store = store_with_session("s1", at(1_000));
    store.invalidate_session("s1");
    assert_eq!(
        store.validate("s1", office(), "Chrome", at(1_000 + 2 * HOUR)),
        Verdict::Rejected(RejectReason::Invalidated)
    );
}

#[test]
fn ipv4_never_equals_ipv6() {
    let mut store = store_with_session("s1", at(1_000));
    let mapped = IpAddress::V6(0, 0, 0, 0, 0, 0xffff, 0x0a00, 0x0001);
    assert_eq!(
        store.validate("s1", mapped, "Chrome", at(1_001)),
        Verdict::Rejected(RejectReason::HijackIpMismatch)
    );
}

#[test]
fn logout_is_idempotent() {
    let mut store = store_with_session("s1", at(1_000));
    store.invalidate_session("s1");
    assert!(!store.get_session("s1").unwrap().is_valid);
    store.invalidate_session("s1");
    assert!(!store.get_session("s1").unwrap().is_valid);
    store.invalidate_session("nobody");
    assert!(store.get_session("nobody").is_none());
    assert_eq!(store.get_session("s1").unwrap().last_activity, at(1_000));
}

#[test]
fn invalid_session_is_never_accepted_again() {
    let mut store = store_with_session("s1", at(1_000));
    store.invalidate_session("s1");
    store.update_last_activity_at("s1", at(1_010));
    let again = store.create_at(
        "s1".to_string(),
        "user123".to_string(),
        "user".to_string(),
        office(),
        "Chrome".to_string(),
        at(1_020),
    );
    assert_eq!(again, Err(RegistryError::IdCollision));
    store.sweep(at(1_030));
    for step in 0..5 {
        assert_ne!(
            store.validate("s1", office(), "Chrome", at(1_040 + step)),
            Verdict::Accepted
        );
    }
}

#[test]
fn add_session_refuses_an_identifier_in_use() {
    let mut store = store_with_session("s1", at(1_000));
    let other = SessionData {
        user_id: "intruder".to_string(),
        username: "mallory".to_string(),
        ip_address: elsewhere(),
        user_agent: "curl".to_string(),
        created_at: at(2_000),
        last_activity: at(2_000),
        is_valid: true,
    };
    assert_eq!(store.add_session("s1".to_string(), other.clone()), Err(RegistryError::IdCollision));
    assert_eq!(store.get_session("s1").unwrap().user_id, "user123");
    assert_eq!(store.add_session("s2".to_string(), other), Ok(()));
    assert_eq!(store.get_session("s2").unwrap().username, "mallory");
    assert_eq!(store.get_session("s1").unwrap().username, "user");
}

#[test]
fn remove_session_is_idempotent() {
    let mut store = store_with_session("s1", at(1_000));
    store
        .create_at(
            "s2".to_string(),
            "u2".to_string(),
            "two".to_string(),
            elsewhere(),
            "Safari".to_string(),
            at(1_000),
        )
        .unwrap();
    store.remove_session("s1");
    assert!(store.get_session("s1").is_none());
    assert_eq!(store.get_session("s2").unwrap().user_id, "u2");
    store.remove_session("s1");
    assert!(store.get_session("s1").is_none());
    assert_eq!(
        store.validate("s1", office(), "Chrome", at(1_001)),
        Verdict::Rejected(RejectReason::NotFound)
    );
}

#[test]
fn recorded_activity_moves_last_activity_only() {
    let mut store = store_with_session("s1", at(1_000));
    store.update_last_activity_at("s1", Timestamp::new(1_500, 9));
    let data = store.get_session("s1").unwrap();
    assert_eq!(data.last_activity, Timestamp::new(1_500, 9));
    assert_eq!(data.created_at, at(1_000));
    assert!(data.is_valid);
    store.update_last_activity_at("nobody", at(1_600));
    assert!(store.get_session("nobody").is_none());
}

#[test]
fn sweep_removes_exactly_the_expired() {
    let mut store = SessionStore::new();
    for (id, made) in [("old", 0), ("edge", 1_000), ("young", 3_000), ("older", 10)] {
        store
            .create_at(
                id.to_string(),
                "u".to_string(),
                "n".to_string(),
                office(),
                "Chrome".to_string(),
                at(made),
            )
            .unwrap();
    }
    store.invalidate_session("young");
    store.invalidate_session("old");
    store.sweep(at(1_000 + HOUR));
    assert!(store.get_session("old").is_none());
    assert!(store.get_session("older").is_none());
    assert_eq!(store.get_session("edge").unwrap().last_activity, at(1_000));
    assert!(store.get_session("edge").unwrap().is_valid);
    assert!(!store.get_session("young").unwrap().is_valid);
    store.sweep(at(1_000 + HOUR));
    assert!(store.get_session("edge").is_some());
    assert!(store.get_session("young").is_some());
    store.sweep(Timestamp::new(1_000 + HOUR, 1));
    assert!(store.get_session("edge").is_none());
    assert!(store.get_session("young").is_some());
}

#[test]
fn sweep_of_everything_and_of_nothing() {
    let mut store = SessionStore::new();
    store.sweep(at(0));
    for n in 0..20 {
        store
            .create_at(
                format!("s{}", n),
                "u".to_string(),
                "n".to_string(),
                office(),
                "Chrome".to_string(),
                at(n),
            )
            .unwrap();
    }
    store.sweep(at(19));
    for n in 0..20 {
        assert!(store.get_session(&format!("s{}", n)).is_some());
    }
    store.sweep(at(HOUR + 10));
    for n in 0..20 {
        assert_eq!(store.get_session(&format!("s{}", n)).is_some(), n >= 10);
    }
    store.sweep(at(10 * HOUR));
    for n in 0..20 {
        assert!(store.get_session(&format!("s{}", n)).is_none());
    }
}

#[test]
fn expired_session_stays_until_swept() {
    let mut store = store_with_session("s1", at(0));
    let late = at(2 * HOUR);
    assert_eq!(
        store.validate("s1", office(), "Chrome", late),
        Verdict::Rejected(RejectReason::Expired)
    );
    assert!(store.get_session("s1").is_some());
    assert_eq!(
        store.validate("s1", office(), "Chrome", late),
        Verdict::Rejected(RejectReason::Expired)
    );
    store.sweep(late);
    assert_eq!(
        store.validate("s1", office(), "Chrome", late),
        Verdict::Rejected(RejectReason::NotFound)
    );
}

#[test]
fn unknown_identifier_counts_as_expired() {
    let store = store_with_session("s1", at(1_000));
    assert!(store.is_session_expired_at("nobody", at(1_000)));
    assert!(!store.is_session_expired_at("s1", at(1_000 + HOUR)));
    assert!(store.is_session_expired_at("s1", Timestamp::new(1_000 + HOUR, 1)));
    assert!(!store.is_session_expired_at("s1", at(0)));
}

#[test]
fn create_generates_distinct_identifiers() {
    let mut store = SessionStore::new();
    let first = store
        .create("user123".to_string(), "user".to_string(), office(), "Chrome".to_string())
        .unwrap();
    let second = store
        .create("user123".to_string(), "user".to_string(), office(), "Chrome".to_string())
        .unwrap();
    assert_ne!(first, second);
    assert_eq!(SESSION_ID_LENGTH, 36);
    assert_eq!(first.chars().count(), 36);
    let data = store.get_session(&first).unwrap();
    assert_eq!(data.user_id, "user123");
    assert_eq!(data.username, "user");
    assert_eq!(data.user_agent, "Chrome");
    assert_eq!(data.ip_address, office());
    assert_eq!(data.created_at, data.last_activity);
    assert!(data.is_valid);
    assert!(data.created_at.secs > 1_600_000_000);
    assert!(store.get_session(&second).is_some());
}

fn system_secs() -> i64 {
    chrono::Utc::now().timestamp()
}

#[test]
fn validate_session_accepts_and_counts_as_activity() {
    let fifty_minutes_ago = at(system_secs() - 50 * 60);
    let mut store = store_with_session("s1", fifty_minutes_ago);
    let before = system_secs();
    assert_eq!(store.validate_session("s1", office(), "Chrome"), Verdict::Accepted);
    let data = store.get_session("s1").unwrap();
    assert!(data.last_activity.secs >= before);
    assert!(data.last_activity.secs <= system_secs());
    assert_eq!(data.created_at, fifty_minutes_ago);
    assert!(data.is_valid);
    assert!(!store.is_session_expired("s1"));
    assert_eq!(store.validate_session("s1", office(), "Chrome"), Verdict::Accepted);
}

#[test]
fn validate_session_burns_on_another_address() {
    let mut store = SessionStore::new();
    let id = store
        .create("user123".to_string(), "user".to_string(), office(), "Chrome".to_string())
        .unwrap();
    let made = store.get_session(&id).unwrap();
    assert_eq!(
        store.validate_session(&id, elsewhere(), "Chrome"),
        Verdict::Rejected(RejectReason::HijackIpMismatch)
    );
    let burnt = store.get_session(&id).unwrap();
    assert!(!burnt.is_valid);
    assert_eq!(burnt.last_activity, made.last_activity);
    assert_eq!(burnt.created_at, made.created_at);
    assert_eq!(burnt.user_id, "user123");
    assert_eq!(burnt.ip_address, office());
    assert_eq!(
        store.validate_session(&id, office(), "Chrome"),
        Verdict::Rejected(RejectReason::Invalidated)
    );
}

#[test]
fn validate_session_burns_on_another_user_agent() {
    let mut store = SessionStore::new();
    let id = store
        .create("user123".to_string(), "user".to_string(), office(), "Chrome".to_string())
        .unwrap();
    let made = store.get_session(&id).unwrap();
    assert_eq!(
        store.validate_session(&id, office(), "Firefox"),
        Verdict::Rejected(RejectReason::HijackUserAgentMismatch)
    );
    let burnt = store.get_session(&id).unwrap();
    assert!(!burnt.is_valid);
    assert_eq!(burnt.last_activity, made.last_activity);
    assert_eq!(
        store.validate_session(&id, office(), "Chrome"),
        Verdict::Rejected(RejectReason::Invalidated)
    );
}

#[test]
fn validate_session_reports_expiry_before_any_mismatch() {
    let sixty_one_minutes_ago = at(system_secs() - 61 * 60);
    let mut store = store_with_session("s1", sixty_one_minutes_ago);
    assert_eq!(
        store.validate_session("s1", office(), "Chrome"),
        Verdict::Rejected(RejectReason::Expired)
    );
    assert_eq!(
        store.validate_session("s1", elsewhere(), "Firefox"),
        Verdict::Rejected(RejectReason::Expired)
    );
    let data = store.get_session("s1").unwrap();
    assert!(data.is_valid);
    assert_eq!(data.last_activity, sixty_one_minutes_ago);
    assert!(store.is_session_expired("s1"));
}

#[test]
fn validate_session_knows_no_other_identifier() {
    let mut store = SessionStore::new();
    let id = store
        .create("user123".to_string(), "user".to_string(), office(), "Chrome".to_string())
        .unwrap();
    assert_eq!(
        store.validate_session("nobody", office(), "Chrome"),
        Verdict::Rejected(RejectReason::NotFound)
    );
    assert!(store.is_session_expired("nobody"));
    assert!(!store.is_session_expired(&id));
    store.invalidate_session(&id);
    assert_eq!(
        store.validate_session(&id, office(), "Chrome"),
        Verdict::Rejected(RejectReason::Invalidated)
    );
}

#[test]
fn validate_session_under_advisory_pinning_burns_nothing() {
    let mut store =
        SessionStore::with_policy(SessionPolicy { timeout_secs: 3_600, pinning: Pinning::Advisory });
    store
        .create_at(
            "s1".to_string(),
            "u".to_string(),
            "n".to_string(),
            office(),
            "Chrome".to_string(),
            at(system_secs()),
        )
        .unwrap();
    assert_eq!(
        store.validate_session("s1", elsewhere(), "Chrome"),
        Verdict::Rejected(RejectReason::HijackIpMismatch)
    );
    assert!(store.get_session("s1").unwrap().is_valid);
    assert_eq!(store.validate_session("s1", office(), "Chrome"), Verdict::Accepted);
}

#[test]
fn clock_reading_sweep_removes_what_is_long_idle() {
    let mut store = store_with_session("ancient", at(0));
    let id = store
        .create("user123".to_string(), "user".to_string(), office(), "Chrome".to_string())
        .unwrap();
    assert!(store.is_session_expired("ancient"));
    assert_eq!(
        store.validate_session("ancient", office(), "Chrome"),
        Verdict::Rejected(RejectReason::Expired)
    );
    store.clear_expired_sessions();
    assert!(store.get_session("ancient").is_none());
    assert!(store.get_session(&id).is_some());
}

#[test]
fn clock_reading_activity_is_recent() {
    let mut store = store_with_session("s1", at(0));
    store.update_last_activity("s1");
    let data = store.get_session("s1").unwrap();
    assert!(data.last_activity.secs > 1_600_000_000);
    assert!(data.last_activity.nanos < 1_000_000_000);
    assert_eq!(data.created_at, at(0));
    assert!(!store.is_session_expired("s1"));
}

#[test]
fn copies_do_not_share_state_with_the_registry() {
    let mut store = store_with_session("s1", at(1_000));
    let mut copy = store.get_session("s1").unwrap();
    copy.is_valid = false;
    copy.user_agent.push_str(" (edited)");
    assert!(store.get_session("s1").unwrap().is_valid);
    assert_eq!(store.validate("s1", office(), "Chrome", at(1_001)), Verdict::Accepted);
    let second = copy.clone();
    assert_eq!(second.user_agent, "Chrome (edited)");
    assert_eq!(second.user_id, "user123");
}

#[test]
fn standard_policy_is_strict_with_one_hour() {
    let policy = SessionPolicy::standard();
    assert_eq!(policy.timeout_secs, 3_600);
    assert_eq!(policy.pinning, Pinning::Strict);
    assert_eq!(SessionStore::new().policy(), policy);
    let custom = SessionPolicy { timeout_secs: 5, pinning: Pinning::Advisory };
    let mut store = SessionStore::with_policy(custom);
    assert_eq!(store.policy(), custom);
    assert!(store.get_session("s1").is_none());
    store.invalidate_session("s1");
    store.sweep(at(0));
    assert_eq!(store.policy(), custom);
}

#[test]
fn timeout_follows_the_policy() {
    let mut store =
        SessionStore::with_policy(SessionPolicy { timeout_secs: 10, pinning: Pinning::Strict });
    store
        .create_at(
            "s1".to_string(),
            "u".to_string(),
            "n".to_string(),
            office(),
            "Chrome".to_string(),
            at(100),
        )
        .unwrap();
    assert!(!store.is_session_expired_at("s1", at(110)));
    assert!(store.is_session_expired_at("s1", Timestamp::new(110, 1)));
    assert_eq!(store.validate("s1", office(), "Chrome", at(110)), Verdict::Accepted);
    assert_eq!(
        store.validate("s1", office(), "Chrome", at(121)),
        Verdict::Rejected(RejectReason::Expired)
    );
    store.sweep(at(120));
    assert!(store.get_session("s1").is_some());
    store.sweep(at(121));
    assert!(store.get_session("s1").is_none());
}

#[test]
fn zero_timeout_expires_at_once() {
    let mut store =
        SessionStore::with_policy(SessionPolicy { timeout_secs: 0, pinning: Pinning::Strict });
    store
        .create_at(
            "s1".to_string(),
            "u".to_string(),
            "n".to_string(),
            office(),
            "Chrome".to_string(),
            at(100),
        )
        .unwrap();
    assert_eq!(store.validate("s1", office(), "Chrome", at(100)), Verdict::Accepted);
    assert_eq!(
        store.validate("s1", office(), "Chrome", Timestamp::new(100, 1)),
        Verdict::Rejected(RejectReason::Expired)
    );
}

#[test]
fn advisory_pinning_reports_and_burns_nothing() {
    let mut store =
        SessionStore::with_policy(SessionPolicy { timeout_secs: 3_600, pinning: Pinning::Advisory });
    store
        .create_at(
            "s1".to_string(),
            "u".to_string(),
            "n".to_string(),
            office(),
            "Chrome".to_string(),
            at(100),
        )
        .unwrap();
    assert_eq!(
        store.validate("s1", elsewhere(), "Chrome", at(200)),
        Verdict::Rejected(RejectReason::HijackIpMismatch)
    );
    assert_eq!(
        store.validate("s1", office(), "Firefox", at(200)),
        Verdict::Rejected(RejectReason::HijackUserAgentMismatch)
    );
    let data = store.get_session("s1").unwrap();
    assert!(data.is_valid);
    assert_eq!(data.last_activity, at(100));
    assert_eq!(store.validate("s1", office(), "Chrome", at(300)), Verdict::Accepted);
    store.invalidate_session("s1");
    assert_eq!(
        store.validate("s1", office(), "Chrome", at(400)),
        Verdict::Rejected(RejectReason::Invalidated)
    );
}
