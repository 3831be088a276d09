use soldier_core::risk::self_impact_guard::{
    LatchReason, SelfImpactGuard, SelfImpactKey, SelfImpactTiming,
};
use soldier_core::risk::state::RiskState;

fn key(s: &str) -> SelfImpactKey {
    SelfImpactKey { strategy_id: s.to_string(), structure_fingerprint: "fp".to_string() }
}

#[test]
fn stale_or_missing_trade_feed_latches_and_degrades() {
    let mut guard = SelfImpactGuard::new();
    let timing = SelfImpactTiming::default();
    let e = guard.evaluate_open(&key("a"), None, false, 10_000, 10_000, &timing);
    assert!(!e.allowed);
    assert_eq!(e.latch_reason, Some(LatchReason::WsTradesGapReconcileRequired));
    assert_eq!(e.risk_state, RiskState::Degraded);
    let stale = guard.evaluate_open(&key("a"), Some(4_999), false, 10_000, 10_000, &timing);
    assert_eq!(stale.risk_state, RiskState::Degraded);
    let fresh = guard.evaluate_open(&key("a"), Some(5_000), false, 10_000, 10_000, &timing);
    assert!(fresh.allowed);
    assert_eq!(fresh.risk_state, RiskState::Healthy);
}

#[test]
fn trip_sets_cooldown_and_counts() {
    let mut guard = SelfImpactGuard::new();
    let timing = SelfImpactTiming::default();
    let tripped = guard.evaluate_open(&key("a"), Some(1_000), true, 1_000, 0, &timing);
    assert!(!tripped.allowed);
    assert_eq!(tripped.reject_reason.as_deref(), Some("FeedbackLoopGuardActive"));
    assert_eq!(guard.trip_count(), 1);
    let during = guard.evaluate_open(&key("a"), Some(1_000), false, 1_000, 15_000, &timing);
    assert!(!during.allowed);
    assert_eq!(
        during.reject_reason.as_deref(),
        Some("FeedbackLoopGuardActive: cooldown active, 45s remaining")
    );
    let other = guard.evaluate_open(&key("b"), Some(1_000), false, 1_000, 15_000, &timing);
    assert!(other.allowed);
    let after = guard.evaluate_open(&key("a"), Some(1_000), false, 1_000, 60_000, &timing);
    assert!(after.allowed);
    assert_eq!(guard.trip_count(), 1);
}
