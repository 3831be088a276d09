use soldier_core::policy::guard::{
    resolve_trading_mode, AxisResolver, CapitalRiskAxis, CortexOverride, EnforcedProfile,
    F1CertStatus, MarketIntegrityAxis, MmUtilReading, ModeReasonCode, PolicyBasisDecision,
    PolicyEvidenceState, PolicyGuardConfig, PolicyGuardInputs, PolicyRiskState,
    PolicyTradingMode, SystemIntegrityAxis,
};

const NOW: u64 = 1_000_000;

fn nominal() -> PolicyGuardInputs {
    PolicyGuardInputs {
        now_ms: NOW,
        mm_util: Some(MmUtilReading { at_kill: false, at_reduceonly: false }),
        mm_util_last_update_ts_ms: Some(NOW),
        risk_state: PolicyRiskState::Healthy,
        cortex_override: CortexOverride::NoOverride,
        bunker_mode_active: false,
        watchdog_last_heartbeat_ts_ms: Some(NOW),
        loop_tick_last_ts_ms: Some(NOW),
        disk_used_at_kill: Some(false),
        disk_used_last_update_ts_ms: Some(NOW),
        disk_used_secondary_at_kill: Some(false),
        disk_used_secondary_last_update_ts_ms: Some(NOW),
        rate_limit_session_kill_active: Some(false),
        count_10028_5m: Some(0),
        emergency_reduceonly_active: false,
        open_permission_blocked_latch: false,
        evidence_chain_state: PolicyEvidenceState::Green,
        f1_cert_status: F1CertStatus::Valid,
        basis_decision: PolicyBasisDecision::Normal,
        fee_model_cache_age_s: Some(0),
        policy_age_sec: 0,
        enforced_profile: EnforcedProfile::Full,
    }
}

#[test]
fn nominal_inputs_resolve_active() {
    let mut resolver = AxisResolver::new();
    let r = resolver.get_effective_mode(&nominal(), &PolicyGuardConfig::default());
    assert_eq!(r.trading_mode, PolicyTradingMode::Active);
    assert!(r.mode_reasons.is_empty());
    assert_eq!(r.capital_axis, CapitalRiskAxis::Safe);
    assert_eq!(r.market_axis, MarketIntegrityAxis::Stable);
    assert_eq!(r.system_axis, SystemIntegrityAxis::Healthy);
}

#[test]
fn stale_watchdog_alone_is_unconfirmed() {
    let mut resolver = AxisResolver::new();
    let mut inputs = nominal();
    inputs.watchdog_last_heartbeat_ts_ms = Some(NOW - 10_001);
    let r = resolver.get_effective_mode(&inputs, &PolicyGuardConfig::default());
    assert_eq!(r.trading_mode, PolicyTradingMode::ReduceOnly);
    assert!(r.mode_reasons.contains(&ModeReasonCode::ReduceOnlyWatchdogUnconfirmed));
}

#[test]
fn stale_watchdog_confirmed_by_loop_tick_kills() {
    let mut resolver = AxisResolver::new();
    let mut inputs = nominal();
    inputs.watchdog_last_heartbeat_ts_ms = Some(NOW - 10_001);
    inputs.loop_tick_last_ts_ms = Some(NOW - 10_001);
    let r = resolver.get_effective_mode(&inputs, &PolicyGuardConfig::default());
    assert_eq!(r.trading_mode, PolicyTradingMode::Kill);
    assert!(r.mode_reasons.contains(&ModeReasonCode::KillWatchdogHeartbeatStale));
    assert!(r.mode_reasons.iter().all(|c| c.is_kill_tier()));
}

#[test]
fn bunker_mode_reduces_only_and_blocks_opens() {
    let mut resolver = AxisResolver::new();
    let mut inputs = nominal();
    inputs.bunker_mode_active = true;
    let r = resolver.get_effective_mode(&inputs, &PolicyGuardConfig::default());
    assert_eq!(r.trading_mode, PolicyTradingMode::ReduceOnly);
    assert!(r.mode_reasons.contains(&ModeReasonCode::ReduceOnlyBunkerModeActive));
    assert!(!r.trading_mode.allows_open());
    assert!(r.trading_mode.requires_open_cancellation());
}

#[test]
fn invalid_f1_cert_reduces_only() {
    let mut resolver = AxisResolver::new();
    let mut inputs = nominal();
    inputs.f1_cert_status = F1CertStatus::Stale;
    let r = resolver.get_effective_mode(&inputs, &PolicyGuardConfig::default());
    assert_eq!(r.trading_mode, PolicyTradingMode::ReduceOnly);
    assert!(r.mode_reasons.contains(&ModeReasonCode::ReduceOnlyF1CertInvalid));
}

#[test]
fn stale_policy_is_counted() {
    let mut resolver = AxisResolver::new();
    let mut inputs = nominal();
    inputs.policy_age_sec = 301;
    let r = resolver.get_effective_mode(&inputs, &PolicyGuardConfig::default());
    assert_eq!(r.trading_mode, PolicyTradingMode::ReduceOnly);
    assert!(r.policy_stale_this_tick);
    assert_eq!(resolver.policy_stale_reduceonly_total, 1);
}

#[test]
fn resolver_table_examples() {
    assert_eq!(
        resolve_trading_mode(CapitalRiskAxis::Safe, MarketIntegrityAxis::Stable, SystemIntegrityAxis::Healthy),
        PolicyTradingMode::Active
    );
    assert_eq!(
        resolve_trading_mode(CapitalRiskAxis::Warning, MarketIntegrityAxis::Stable, SystemIntegrityAxis::Healthy),
        PolicyTradingMode::ReduceOnly
    );
    assert_eq!(
        resolve_trading_mode(CapitalRiskAxis::Safe, MarketIntegrityAxis::Broken, SystemIntegrityAxis::Healthy),
        PolicyTradingMode::ReduceOnly
    );
    assert_eq!(
        resolve_trading_mode(CapitalRiskAxis::Critical, MarketIntegrityAxis::Stable, SystemIntegrityAxis::Healthy),
        PolicyTradingMode::Kill
    );
    assert_eq!(
        resolve_trading_mode(CapitalRiskAxis::Safe, MarketIntegrityAxis::Stable, SystemIntegrityAxis::Failing),
        PolicyTradingMode::Kill
    );
    assert_eq!(PolicyTradingMode::Kill.restrictiveness(), 2);
    assert_eq!(ModeReasonCode::ReduceOnlySessionKillUnconfirmed.canonical_index(), 20);
    assert!(EnforcedProfile::Csp.is_csp_only());
    assert!(F1CertStatus::Missing.requires_reduce_only());
}
