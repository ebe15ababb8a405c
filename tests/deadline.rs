use healthcheck::deadline::DeadlineStore;
use healthcheck::verdict::{Verdict, STATUS_INTERNAL_SERVER_ERROR, STATUS_OK};

const SECOND: u128 = 1_000_000_000;

#[test]
fn new_store_expires_ttl_after_creation() {
    let s = DeadlineStore::new(5 * SECOND, 7);
    assert_eq!(s.ttl, 5 * SECOND);
    assert_eq!(s.expiry, 5 * SECOND + 7);
}

#[test]
fn new_store_clamps_at_the_largest_instant() {
    let s = DeadlineStore::new(10, u128::MAX - 3);
    assert_eq!(s.expiry, u128::MAX);
}

#[test]
fn heartbeat_sets_expiry_to_now_plus_ttl() {
    let mut s = DeadlineStore::new(2 * SECOND, 0);
    s.heartbeat(5 * SECOND);
    assert_eq!(s.expiry, 7 * SECOND);
}

#[test]
fn expired_exactly_at_now_plus_ttl() {
    let mut s = DeadlineStore::new(2 * SECOND, 0);
    s.heartbeat(10 * SECOND);
    assert!(!s.is_expired(10 * SECOND));
    assert!(!s.is_expired(12 * SECOND - 1));
    assert!(s.is_expired(12 * SECOND));
    assert!(s.is_expired(100 * SECOND));
}

#[test]
fn repeated_heartbeat_never_earlier_than_one() {
    let mut once = DeadlineStore::new(3 * SECOND, 0);
    once.heartbeat(4 * SECOND);
    let mut twice = DeadlineStore::new(3 * SECOND, 0);
    twice.heartbeat(4 * SECOND);
    twice.heartbeat(4 * SECOND);
    assert_eq!(twice.expiry, once.expiry);
    twice.heartbeat(4 * SECOND + 1);
    assert!(twice.expiry >= once.expiry);
}

#[test]
fn expiry_never_moves_backward() {
    let mut s = DeadlineStore::new(SECOND, 0);
    let mut last = s.expiry;
    for t in [5u128, 3, 9, 9, 1, 20, 2] {
        s.heartbeat(t * SECOND);
        assert!(s.expiry >= last);
        last = s.expiry;
    }
    assert_eq!(s.expiry, 21 * SECOND);
}

#[test]
fn heartbeats_in_either_order_agree() {
    let mut a = DeadlineStore::new(SECOND, 0);
    a.heartbeat(3 * SECOND);
    a.heartbeat(8 * SECOND);
    let mut b = DeadlineStore::new(SECOND, 0);
    b.heartbeat(8 * SECOND);
    b.heartbeat(3 * SECOND);
    assert_eq!(a.expiry, b.expiry);
    assert_eq!(a.expiry, 9 * SECOND);
}

#[test]
fn two_second_ttl_scenario() {
    let mut s = DeadlineStore::new(2 * SECOND, 0);
    s.heartbeat(0);
    let (code, body) = s.respond(SECOND);
    assert_eq!(code, 200);
    assert_eq!(body, "\"healthy\"");
    let (code, body) = s.respond(2 * SECOND + SECOND / 2);
    assert_eq!(code, 500);
    assert_eq!(body, "\"unhealthy\"");
    assert_eq!(s.sample(3 * SECOND), 0);
}

#[test]
fn no_heartbeat_scenario() {
    let s = DeadlineStore::new(SECOND, 0);
    let (code, body) = s.respond(SECOND + SECOND / 2);
    assert_eq!(code, 500);
    assert_eq!(body, "\"unhealthy\"");
    assert_eq!(s.sample(SECOND), 0);
}

#[test]
fn sample_is_one_while_healthy() {
    let s = DeadlineStore::new(SECOND, 0);
    assert_eq!(s.sample(0), 1);
    assert_eq!(s.sample(SECOND - 1), 1);
}

#[test]
fn gauge_and_endpoint_agree_after_a_period() {
    let mut s = DeadlineStore::new(2 * SECOND, 0);
    s.heartbeat(0);
    // the deadline passes at 2 s; a sample at 3.5 s and a query at 4 s agree
    assert_eq!(s.sample(3 * SECOND + SECOND / 2), 0);
    assert_eq!(s.respond(4 * SECOND).0, STATUS_INTERNAL_SERVER_ERROR);
    // before the deadline both report healthy
    assert_eq!(s.sample(SECOND / 2), 1);
    assert_eq!(s.respond(SECOND).0, STATUS_OK);
}

#[test]
fn verdict_encodings() {
    assert_eq!(Verdict::from_expired(false), Verdict::Healthy);
    assert_eq!(Verdict::from_expired(true), Verdict::Unhealthy);
    assert_eq!(Verdict::Healthy.status_code(), 200);
    assert_eq!(Verdict::Unhealthy.status_code(), 500);
    assert_eq!(Verdict::Healthy.gauge_value(), 1);
    assert_eq!(Verdict::Unhealthy.gauge_value(), 0);
    assert_eq!(Verdict::Healthy.label(), "healthy");
    assert_eq!(Verdict::Unhealthy.label(), "unhealthy");
}

#[test]
fn body_is_a_json_string() {
    assert_eq!(Verdict::Healthy.body(), "\"healthy\"");
    assert_eq!(Verdict::Unhealthy.body(), "\"unhealthy\"");
}
