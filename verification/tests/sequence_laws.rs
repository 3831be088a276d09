use soldier_core::analytics::evidence_chain_state::{
    EvidenceChainState, EvidenceEnforcedProfile, EvidenceGuard, EvidenceGuardConfig, EvidenceGuardDecision,
    EvidenceGuardInputs, QueueDepthReading,
};
use soldier_core::risk::basis_monitor::{BasisDecision, BasisMonitor, BasisReading, BasisWindowConfig};
use soldier_core::risk::network_jitter::{JitterInputs, NetworkJitterConfig, NetworkJitterMonitor};

#[test]
fn basis_trip_total_counts_non_normal_decisions() {
    let mut m = BasisMonitor::new();
    let cfg = BasisWindowConfig::default();
    let calm = BasisReading { kill_exceeds: false, reduceonly_exceeds: false };
    let mut non_normal = 0u64;
    let ticks: Vec<(Option<BasisReading>, u64)> = vec![(Some(calm), 0), (None, 1_000), (Some(calm), 2_000), (None, 3_000)];
    for (r, t) in ticks {
        if m.evaluate(r, t, cfg) != BasisDecision::Normal {
            non_normal += 1;
        }
    }
    assert_eq!(non_normal, 2);
    assert_eq!(m.trip_total(), non_normal);
}

#[test]
fn jitter_trip_total_counts_entries_into_bunker_mode() {
    let mut m = NetworkJitterMonitor::new();
    let cfg = NetworkJitterConfig::default();
    let missing = JitterInputs { ws_event_lag_ms: None, http_p95_ms: Some(10), request_timeout_exceeded: Some(false) };
    let calm = JitterInputs { ws_event_lag_ms: Some(10), http_p95_ms: Some(10), request_timeout_exceeded: Some(false) };
    assert!(m.evaluate(missing, 0, &cfg));
    assert!(m.evaluate(missing, 1_000, &cfg)); // already active: no new trip
    assert_eq!(m.trip_total(), 1);
    assert!(m.evaluate(calm, 2_000, &cfg));
    assert!(!m.evaluate(calm, 2_000 + 120_000, &cfg));
    assert!(m.evaluate(missing, 200_000, &cfg));
    assert_eq!(m.trip_total(), 2);
    assert!(m.is_active());
}

fn inputs(now: u64, profile: EvidenceEnforcedProfile) -> EvidenceGuardInputs {
    EvidenceGuardInputs {
        now_ms: now,
        truth_capsule_write_errors: Some(0),
        decision_snapshot_write_errors: Some(0),
        wal_write_errors: Some(0),
        parquet_queue_overflow_count: Some(0),
        parquet_queue_depth: Some(QueueDepthReading { above_trip: false, below_clear: true }),
        counters_last_update_ts_ms: Some(now),
        enforced_profile: profile,
    }
}

#[test]
fn evidence_state_follows_the_last_enforced_evaluation() {
    let mut g = EvidenceGuard::new();
    let cfg = EvidenceGuardConfig::default();
    assert_eq!(g.current_state(), EvidenceChainState::NotGreen);
    assert_eq!(g.evaluate(&inputs(100_000, EvidenceEnforcedProfile::Full), &cfg), EvidenceGuardDecision::Green);
    assert_eq!(g.current_state(), EvidenceChainState::Green);
    // a CSP tick is not enforced and leaves the state as it was
    assert_eq!(g.evaluate(&inputs(101_000, EvidenceEnforcedProfile::Csp), &cfg), EvidenceGuardDecision::NotEnforced);
    assert_eq!(g.current_state(), EvidenceChainState::Green);
    let mut missing = inputs(102_000, EvidenceEnforcedProfile::Full);
    missing.wal_write_errors = None;
    assert_eq!(g.evaluate(&missing, &cfg), EvidenceGuardDecision::NotGreen);
    assert_eq!(g.current_state(), EvidenceChainState::NotGreen);
}
