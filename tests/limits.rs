use gatekeep::cooldown::{Admission, CooldownTable};
use gatekeep::limit::{
    principal_route, principal_route_at, AddressGate, QuotaHeaders, RateLimitLayer, Rejection,
    RouteOutcome, UserGate, UserRateLimiterLayer, ADDRESS_COOLDOWN_MS, PRINCIPAL_COOLDOWN_MS,
    TOO_MANY_REQUESTS,
};
use gatekeep::auth::AuthUser;
use gatekeep::token::generate_token_at;

const SECRET: &[u8] = b"test-signing-secret";

fn bearer(subject: &str) -> String {
    format!("Bearer {}", generate_token_at(subject, SECRET, 1_000).expect("issued"))
}

#[test]
fn second_request_inside_window_is_rejected() {
    let mut t = CooldownTable::new(1_000);
    assert_eq!(t.request("k", 10), Admission::Admitted);
    assert_eq!(t.request("k", 11), Admission::Cooling { elapsed_ms: 1 });
    assert_eq!(t.request("k", 1_009), Admission::Cooling { elapsed_ms: 999 });
}

#[test]
fn key_recovers_after_cooldown() {
    let mut t = CooldownTable::new(1_000);
    assert_eq!(t.request("k", 0), Admission::Admitted);
    assert_eq!(t.request("k", 500), Admission::Cooling { elapsed_ms: 500 });
    assert_eq!(t.request("k", 1_500), Admission::Admitted);
    assert_eq!(t.request("k", 2_499), Admission::Cooling { elapsed_ms: 999 });
}

#[test]
fn earlier_clock_reading_counts_as_no_time() {
    let mut t = CooldownTable::new(1_000);
    assert_eq!(t.request("k", 100), Admission::Admitted);
    assert_eq!(t.request("k", 50), Admission::Cooling { elapsed_ms: 0 });
}

#[test]
fn zero_cooldown_never_rejects() {
    let mut t = CooldownTable::new(0);
    assert_eq!(t.request("k", 7), Admission::Admitted);
    assert_eq!(t.request("k", 7), Admission::Admitted);
    assert_eq!(t.cooldown_ms(), 0);
}

fn admitted_among(n: u64) -> u64 {
    let mut t = CooldownTable::new(PRINCIPAL_COOLDOWN_MS);
    let mut admitted = 0;
    for i in 0..n {
        // arrival instants taken before the lock, not in lock order
        let now = 10_000 + (i * 37) % 400 - 200;
        if t.request("fresh-key", now) == Admission::Admitted {
            admitted += 1;
        }
    }
    admitted
}

#[test]
fn racing_requests_admit_exactly_one() {
    assert_eq!(admitted_among(2), 1);
    assert_eq!(admitted_among(5), 1);
    assert_eq!(admitted_among(50), 1);
}

#[test]
fn other_keys_are_unaffected() {
    let mut t = CooldownTable::new(1_000);
    assert_eq!(t.request("a", 0), Admission::Admitted);
    assert_eq!(t.request("b", 1), Admission::Admitted);
    assert_eq!(t.request("a", 2), Admission::Cooling { elapsed_ms: 2 });
}

#[test]
fn address_gate_rejects_with_full_cooldown() {
    let mut l = RateLimitLayer::new(ADDRESS_COOLDOWN_MS);
    assert_eq!(l.check("10.0.0.1:4000", 0), AddressGate::Forward);
    let expected = AddressGate::Reject(Rejection { status: TOO_MANY_REQUESTS, retry_after_secs: 5, quota: None });
    assert_eq!(l.check("10.0.0.1:4000", 4_999), expected);
    assert_eq!(l.check("10.0.0.1:4000", 1_000), expected);
    assert_eq!(l.check("10.0.0.2:4000", 1_000), AddressGate::Forward);
    assert_eq!(l.check("10.0.0.1:4000", 5_000), AddressGate::Forward);
}

#[test]
fn user_gate_reports_remaining_time() {
    let mut l = UserRateLimiterLayer::new(PRINCIPAL_COOLDOWN_MS);
    let u = AuthUser { user_id: "user-1".to_string() };
    let q0 = QuotaHeaders { limit: 1, remaining: 0, reset_secs: 0 };
    assert_eq!(l.check(Some(&u), 0), UserGate::Forward(q0));
    let q2 = QuotaHeaders { limit: 1, remaining: 0, reset_secs: 2 };
    let r = Rejection { status: 429, retry_after_secs: 2, quota: Some(q2) };
    assert_eq!(l.check(Some(&u), 500), UserGate::Reject(r));
    assert_eq!(l.check(None, 600), UserGate::PassThrough);
    assert_eq!(l.check(Some(&u), 3_000), UserGate::Forward(q0));
}

#[test]
fn principal_route_twice_within_window() {
    let mut l = UserRateLimiterLayer::new(PRINCIPAL_COOLDOWN_MS);
    let h = bearer("user-1");
    match principal_route_at(Some(&h), SECRET, 2_000, &mut l, 0) {
        RouteOutcome::Proceed { user, quota } => {
            assert_eq!(user.user_id, "user-1");
            assert_eq!(quota, QuotaHeaders { limit: 1, remaining: 0, reset_secs: 0 });
        }
        other => panic!("expected to proceed, got {:?}", other),
    }
    match principal_route_at(Some(&h), SECRET, 2_001, &mut l, 1_200) {
        RouteOutcome::Limited(j) => {
            assert_eq!(j.status, 429);
            assert!(j.retry_after_secs <= 3);
            assert_eq!(j.retry_after_secs, 1);
            assert_eq!(j.quota, Some(QuotaHeaders { limit: 1, remaining: 0, reset_secs: 1 }));
        }
        other => panic!("expected a rejection, got {:?}", other),
    }
}

#[test]
fn wrong_scheme_never_reaches_user_limiter() {
    let mut l = UserRateLimiterLayer::new(PRINCIPAL_COOLDOWN_MS);
    assert!(matches!(principal_route(Some("Basic abc123"), SECRET, &mut l, 0), RouteOutcome::Unauthorized));
    assert!(matches!(principal_route(None, SECRET, &mut l, 0), RouteOutcome::Unauthorized));
    let h = bearer("user-1");
    assert!(matches!(principal_route_at(Some(&h), SECRET, 2_000, &mut l, 1), RouteOutcome::Proceed { .. }));
}

#[test]
fn limiters_keep_separate_keyspaces() {
    let mut addrs = RateLimitLayer::new(ADDRESS_COOLDOWN_MS);
    let mut users = UserRateLimiterLayer::new(PRINCIPAL_COOLDOWN_MS);
    assert_eq!(addrs.check("user-1", 0), AddressGate::Forward);
    assert!(matches!(addrs.check("user-1", 1), AddressGate::Reject(_)));
    let u = AuthUser { user_id: "user-1".to_string() };
    assert!(matches!(users.check(Some(&u), 2), UserGate::Forward(_)));
    assert!(matches!(users.check(Some(&u), 3), UserGate::Reject(_)));
    assert_eq!(addrs.check("10.0.0.9:1", 4), AddressGate::Forward);
    let v = AuthUser { user_id: "10.0.0.9:1".to_string() };
    assert!(matches!(users.check(Some(&v), 5), UserGate::Forward(_)));
}
