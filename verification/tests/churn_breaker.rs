use soldier_core::risk::churn_breaker::{ChurnBreaker, ChurnBreakerDecision, ChurnKey};

fn test_key(strategy_id: &str, fingerprint: &str) -> ChurnKey {
    ChurnKey {
        strategy_id: strategy_id.to_string(),
        structure_fingerprint: fingerprint.to_string(),
    }
}

const SEC: u64 = 1000;

#[test]
fn test_churn_breaker_allows_opens_when_inactive() {
    let mut breaker = ChurnBreaker::new();
    let key = test_key("strat1", "BTC-PERP-delta0.5");
    let now: u64 = 1_000_000;

    let decision = breaker.evaluate_open(&key, now);

    assert_eq!(decision, ChurnBreakerDecision::Allow);
}

#[test]
fn test_churn_breaker_blacklists_after_three_flattens() {
    let mut breaker = ChurnBreaker::new();
    let key = test_key("strat1", "BTC-PERP-delta0.5");
    let now: u64 = 1_000_000;

    breaker.record_flatten(key.clone(), now);
    breaker.record_flatten(key.clone(), now + 60 * SEC);
    breaker.record_flatten(key.clone(), now + 120 * SEC);

    let decision = breaker.evaluate_open(&key, now + 180 * SEC);

    match decision {
        ChurnBreakerDecision::Reject { reason, trip_count } => {
            assert!(reason.contains("ChurnBreakerActive"));
            assert_eq!(trip_count, 1);
        }
        _ => panic!("Expected Reject, got {:?}", decision),
    }
}

#[test]
fn test_churn_breaker_enforces_15m_blacklist_ttl() {
    let mut breaker = ChurnBreaker::new();
    let key = test_key("strat1", "BTC-PERP-delta0.5");
    let now: u64 = 1_000_000;

    breaker.record_flatten(key.clone(), now);
    breaker.record_flatten(key.clone(), now + 60 * SEC);
    breaker.record_flatten(key.clone(), now + 120 * SEC);

    let decision_within = breaker.evaluate_open(&key, now + 16 * 60 * SEC);
    assert!(matches!(
        decision_within,
        ChurnBreakerDecision::Reject { .. }
    ));

    let decision_after = breaker.evaluate_open(&key, now + 18 * 60 * SEC);

    assert_eq!(decision_after, ChurnBreakerDecision::Allow);
}

#[test]
fn test_churn_breaker_prunes_old_flatten_events() {
    let mut breaker = ChurnBreaker::new();
    let key = test_key("strat1", "BTC-PERP-delta0.5");
    let now: u64 = 1_000_000;

    breaker.record_flatten(key.clone(), now);
    breaker.record_flatten(key.clone(), now + 6 * 60 * SEC);
    breaker.record_flatten(key.clone(), now + 7 * 60 * SEC);

    let decision = breaker.evaluate_open(&key, now + 8 * 60 * SEC);
    assert_eq!(decision, ChurnBreakerDecision::Allow);
}

#[test]
fn test_churn_breaker_isolates_keys() {
    let mut breaker = ChurnBreaker::new();
    let key1 = test_key("strat1", "BTC-PERP-delta0.5");
    let key2 = test_key("strat2", "ETH-PERP-delta0.3");
    let now: u64 = 1_000_000;

    breaker.record_flatten(key1.clone(), now);
    breaker.record_flatten(key1.clone(), now + 60 * SEC);
    breaker.record_flatten(key1.clone(), now + 120 * SEC);

    let decision1 = breaker.evaluate_open(&key1, now + 180 * SEC);
    let decision2 = breaker.evaluate_open(&key2, now + 180 * SEC);

    assert!(matches!(decision1, ChurnBreakerDecision::Reject { .. }));
    assert_eq!(decision2, ChurnBreakerDecision::Allow);
}

#[test]
fn test_churn_breaker_trip_counter_increments() {
    let mut breaker = ChurnBreaker::new();
    let key1 = test_key("strat1", "BTC-PERP");
    let key2 = test_key("strat2", "ETH-PERP");
    let now: u64 = 1_000_000;

    assert_eq!(breaker.trip_count(), 0);

    breaker.record_flatten(key1.clone(), now);
    breaker.record_flatten(key1.clone(), now + 60 * SEC);
    breaker.record_flatten(key1.clone(), now + 120 * SEC);
    assert_eq!(breaker.trip_count(), 1);

    breaker.record_flatten(key2.clone(), now + 180 * SEC);
    breaker.record_flatten(key2.clone(), now + 240 * SEC);
    breaker.record_flatten(key2.clone(), now + 300 * SEC);
    assert_eq!(breaker.trip_count(), 2);
}

#[test]
fn churn_reject_reports_remaining_seconds() {
    let mut breaker = ChurnBreaker::new();
    let key = test_key("s", "f");
    let now: u64 = 0;
    breaker.record_flatten(key.clone(), now);
    breaker.record_flatten(key.clone(), now + 10 * SEC);
    breaker.record_flatten(key.clone(), now + 20 * SEC);
    // Blacklisted until 20s + 900s = 920s; at 320s, 600s remain.
    match breaker.evaluate_open(&key, 320 * SEC) {
        ChurnBreakerDecision::Reject { reason, trip_count } => {
            assert_eq!(reason, "ChurnBreakerActive: blacklisted for 600s remaining");
            assert_eq!(trip_count, 1);
        }
        other => panic!("expected a rejection, got {:?}", other),
    }
}
