use soldier_core::risk::fees::{
    classify_fee_staleness, FeeModelRefreshMetrics, FeePollSchedule, FEE_CACHE_HARD_S_DEFAULT,
    FEE_CACHE_SOFT_S_DEFAULT, FEE_MODEL_POLL_INTERVAL_MS,
};
use soldier_core::risk::state::RiskState;

#[test]
fn first_poll_is_always_due() {
    let s = FeePollSchedule::new();
    assert_eq!(s.poll_interval_ms(), FEE_MODEL_POLL_INTERVAL_MS);
    assert_eq!(FEE_MODEL_POLL_INTERVAL_MS, 60_000);
    assert!(s.should_poll(0));
}

#[test]
fn poll_waits_a_full_interval() {
    let mut s = FeePollSchedule::with_poll_interval_ms(1_000);
    s.record_poll(5_000);
    assert!(!s.should_poll(5_000));
    assert!(!s.should_poll(5_999));
    assert!(s.should_poll(6_000));
    // a clock that went backwards polls again
    assert!(s.should_poll(4_000));
}

#[test]
fn fresh_cache_is_healthy() {
    let r = classify_fee_staleness(1_000_000, Some(1_000_000 - 300_000), FEE_CACHE_SOFT_S_DEFAULT, FEE_CACHE_HARD_S_DEFAULT);
    assert!(!r.soft_stale);
    assert!(!r.hard_stale);
    assert_eq!(r.risk_state, RiskState::Healthy);
}

#[test]
fn past_soft_limit_is_soft_stale() {
    let r = classify_fee_staleness(1_000_000, Some(1_000_000 - 300_001), 300, 900);
    assert!(r.soft_stale);
    assert!(!r.hard_stale);
    assert_eq!(r.risk_state, RiskState::Healthy);
}

#[test]
fn past_hard_limit_is_hard_stale_and_degraded() {
    let at_limit = classify_fee_staleness(1_000_000, Some(100_000), 300, 900);
    assert!(!at_limit.hard_stale);
    assert!(at_limit.soft_stale);
    let r = classify_fee_staleness(1_000_001, Some(100_000), 300, 900);
    assert!(r.hard_stale);
    assert!(!r.soft_stale);
    assert_eq!(r.risk_state, RiskState::Degraded);
}

#[test]
fn missing_or_future_cache_time_is_hard_stale() {
    let none = classify_fee_staleness(10, None, 300, 900);
    assert!(none.hard_stale);
    assert_eq!(none.risk_state, RiskState::Degraded);
    let future = classify_fee_staleness(10, Some(20), 300, 900);
    assert!(future.hard_stale);
    assert!(!future.soft_stale);
}

#[test]
fn refresh_failures_are_counted() {
    let mut m = FeeModelRefreshMetrics::new();
    m.record_fee_model_refresh_fail();
    m.record_fee_model_refresh_fail();
    assert_eq!(m.fee_model_refresh_fail_total(), 2);
}
