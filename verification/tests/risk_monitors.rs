use soldier_core::analytics::evidence_chain_state::{
    EvidenceChainState, EvidenceEnforcedProfile, EvidenceGuard, EvidenceGuardConfig,
    EvidenceGuardDecision, EvidenceGuardInputs, QueueDepthReading,
};
use soldier_core::risk::exchange_health::{
    AnnouncementEntry, ExchangeHealthConfig, ExchangeHealthDecision, ExchangeHealthInput,
    ExchangeHealthMonitor,
};
use soldier_core::risk::network_jitter::{JitterInputs, NetworkJitterConfig, NetworkJitterMonitor};
use soldier_core::risk::state::{PolicyGuard, RiskState, TradingMode};

#[test]
fn effective_mode_follows_risk_state() {
    assert_eq!(PolicyGuard::get_effective_mode(RiskState::Healthy), TradingMode::Active);
    assert_eq!(PolicyGuard::get_effective_mode(RiskState::Degraded), TradingMode::ReduceOnly);
    assert_eq!(PolicyGuard::get_effective_mode(RiskState::Maintenance), TradingMode::ReduceOnly);
    assert_eq!(PolicyGuard::get_effective_mode(RiskState::Kill), TradingMode::Kill);
    assert!(TradingMode::ReduceOnly.allows_close());
    assert!(!TradingMode::Kill.allows_close());
}

#[test]
fn missing_jitter_metric_enters_bunker_mode() {
    let mut m = NetworkJitterMonitor::new();
    let cfg = NetworkJitterConfig::default();
    let missing = JitterInputs { ws_event_lag_ms: None, http_p95_ms: Some(10), request_timeout_exceeded: Some(false) };
    assert!(m.evaluate(missing, 1_000, &cfg));
    assert_eq!(m.trip_total(), 1);
    let calm = JitterInputs { ws_event_lag_ms: Some(10), http_p95_ms: Some(10), request_timeout_exceeded: Some(false) };
    // Exit needs a stable period of bunker_exit_stable_s.
    assert!(m.evaluate(calm, 2_000, &cfg));
    assert!(m.evaluate(calm, 2_000 + 119_999, &cfg));
    assert!(!m.evaluate(calm, 2_000 + 120_000, &cfg));
    assert!(!m.is_active());
}

#[test]
fn exchange_health_stale_poll_forces_reduce_only() {
    let mut m = ExchangeHealthMonitor::new();
    let cfg = ExchangeHealthConfig::default();
    let stale = ExchangeHealthInput { announcements: Some(Vec::new()), last_successful_poll_ms: None };
    assert_eq!(m.evaluate(&stale, 1_000_000, cfg), ExchangeHealthDecision::ForceReduceOnly);
    let soon = ExchangeHealthInput {
        announcements: Some(vec![AnnouncementEntry { maintenance_start_ms: Some(1_000_000 + 60_000) }]),
        last_successful_poll_ms: Some(1_000_000),
    };
    let d = m.evaluate(&soon, 1_000_000, cfg);
    assert_eq!(d, ExchangeHealthDecision::MaintenanceImminent);
    assert_eq!(d.risk_state(), Some(RiskState::Maintenance));
    let calm = ExchangeHealthInput { announcements: Some(Vec::new()), last_successful_poll_ms: Some(1_000_000) };
    assert_eq!(m.evaluate(&calm, 1_000_000, cfg), ExchangeHealthDecision::Normal);
}

fn evidence_inputs(now: u64, errors: u64) -> EvidenceGuardInputs {
    EvidenceGuardInputs {
        now_ms: now,
        truth_capsule_write_errors: Some(errors),
        decision_snapshot_write_errors: Some(0),
        wal_write_errors: Some(0),
        parquet_queue_overflow_count: Some(0),
        parquet_queue_depth: Some(QueueDepthReading { above_trip: false, below_clear: true }),
        counters_last_update_ts_ms: Some(now),
        enforced_profile: EvidenceEnforcedProfile::Full,
    }
}

#[test]
fn evidence_write_error_increase_blocks_opens() {
    let mut g = EvidenceGuard::new();
    let cfg = EvidenceGuardConfig::default();
    assert_eq!(g.evaluate(&evidence_inputs(100_000, 0), &cfg), EvidenceGuardDecision::Green);
    let d = g.evaluate(&evidence_inputs(101_000, 1), &cfg);
    assert_eq!(d, EvidenceGuardDecision::NotGreen);
    assert!(EvidenceGuard::blocks_open(d));
    assert_eq!(g.current_state(), EvidenceChainState::NotGreen);
    let mut missing = evidence_inputs(102_000, 1);
    missing.wal_write_errors = None;
    assert_eq!(g.evaluate(&missing, &cfg), EvidenceGuardDecision::NotGreen);
}

#[test]
fn maintenance_lookahead_counts_milliseconds() {
    let mut m = ExchangeHealthMonitor::new();
    let cfg = ExchangeHealthConfig::default();
    let at = |start: u64| ExchangeHealthInput {
        announcements: Some(vec![AnnouncementEntry { maintenance_start_ms: Some(start) }]),
        last_successful_poll_ms: Some(1_000_000),
    };
    // exactly the lookahead away is within it
    assert_eq!(m.evaluate(&at(1_000_000 + 3_600_000), 1_000_000, cfg), ExchangeHealthDecision::MaintenanceImminent);
    // half a second beyond it is not
    assert_eq!(m.evaluate(&at(1_000_000 + 3_600_500), 1_000_000, cfg), ExchangeHealthDecision::Normal);
    // a window that has started is imminent
    assert_eq!(m.evaluate(&at(999_000), 1_000_000, cfg), ExchangeHealthDecision::MaintenanceImminent);
}
