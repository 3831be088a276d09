use vstd::prelude::*;

use crate::text::{push_decimal, str_eq};
pub use crate::policy::canonical_json::{canonical_json_bytes, compute_runtime_config_hash, JsonValue};
pub use crate::policy::digest::{hex_encode, sha256};
pub use crate::policy::f1_gate::{F1CertFields, F1Gate, F1GateConfig, F1RuntimeBindings};

verus! {

// ─── Enumerations consumed and produced by the axis resolver ───────────────────

/// Profile for enforcement scoping.
#[derive(Debug, Clone, Copy, PartialEq, Eq, Structural)]
pub enum EnforcedProfile {
    /// Contract Safety Profile only.
    Csp,
    /// General Operational Profile + CSP.
    Gop,
    /// Both CSP and GOP.
    Full,
}

impl EnforcedProfile {
    pub fn is_csp_only(self) -> (r: bool)
        ensures
            r == (self == EnforcedProfile::Csp),
    {
        self == EnforcedProfile::Csp
    }
}

#[derive(Debug, Clone, Copy, PartialEq, Eq, Structural, PartialOrd, Ord)]
pub enum CapitalRiskAxis {
    Safe,
    Warning,
    Critical,
}

#[derive(Debug, Clone, Copy, PartialEq, Eq, Structural, PartialOrd, Ord)]
pub enum MarketIntegrityAxis {
    Stable,
    Stressed,
    Broken,
}

#[derive(Debug, Clone, Copy, PartialEq, Eq, Structural, PartialOrd, Ord)]
pub enum SystemIntegrityAxis {
    Healthy,
    Degraded,
    Failing,
}

/// The canonical output of the axis resolver.
#[derive(Debug, Clone, Copy, PartialEq, Eq, Structural, PartialOrd, Ord)]
pub enum PolicyTradingMode {
    Active,
    ReduceOnly,
    Kill,
}

pub open spec fn mode_restrictiveness(m: PolicyTradingMode) -> u8 {
    match m {
        PolicyTradingMode::Active => 0,
        PolicyTradingMode::ReduceOnly => 1,
        PolicyTradingMode::Kill => 2,
    }
}

impl PolicyTradingMode {
    pub fn allows_open(self) -> (r: bool)
        ensures
            r == (self == PolicyTradingMode::Active),
    {
        self == PolicyTradingMode::Active
    }

    pub fn requires_open_cancellation(self) -> (r: bool)
        ensures
            r == (self != PolicyTradingMode::Active),
    {
        self != PolicyTradingMode::Active
    }

    pub fn restrictiveness(self) -> (r: u8)
        ensures
            r == mode_restrictiveness(self),
    {
        match self {
            PolicyTradingMode::Active => 0,
            PolicyTradingMode::ReduceOnly => 1,
            PolicyTradingMode::Kill => 2,
        }
    }
}

#[derive(Debug, Clone, Copy, PartialEq, Eq, Structural)]
pub enum PolicyRiskState {
    Healthy,
    Degraded,
    Maintenance,
    Kill,
}

#[derive(Debug, Clone, Copy, PartialEq, Eq, Structural)]
pub enum CortexOverride {
    NoOverride,
    ForceReduceOnly,
    ForceKill,
}

#[derive(Debug, Clone, Copy, PartialEq, Eq, Structural)]
pub enum PolicyEvidenceState {
    Green,
    NotGreen,
}

#[derive(Debug, Clone, Copy, PartialEq, Eq, Structural)]
pub enum PolicyBasisDecision {
    Normal,
    ForceReduceOnly,
    ForceKill,
}

/// F1 certification status as evaluated by the F1 gate.
#[derive(Debug, Clone, Copy, PartialEq, Eq, Structural)]
pub enum F1CertStatus {
    Valid,
    Missing,
    Fail,
    Stale,
    Invalid,
}

impl F1CertStatus {
    pub fn requires_reduce_only(self) -> (r: bool)
        ensures
            r == (self != F1CertStatus::Valid),
    {
        !matches!(self, F1CertStatus::Valid)
    }
}

/// Reason codes, kill tier first, each tier in canonical order.
#[derive(Debug, Clone, Copy, PartialEq, Eq, Structural)]
pub enum ModeReasonCode {
    KillWatchdogHeartbeatStale,
    KillRiskstateKill,
    KillMarginMmUtilCritical,
    KillRateLimitSessionTermination,
    KillDiskWatermarkKill,
    KillCortexForceKill,
    ReduceOnlyRiskstateMaintenance,
    ReduceOnlyEmergencyReduceOnlyActive,
    ReduceOnlyOpenPermissionLatched,
    ReduceOnlyBunkerModeActive,
    ReduceOnlyF1CertInvalid,
    ReduceOnlyEvidenceChainNotGreen,
    ReduceOnlyCortexForceReduceOnly,
    ReduceOnlyFeeModelHardStale,
    ReduceOnlyRiskstateDegraded,
    ReduceOnlyPolicyStale,
    ReduceOnlyMarginMmUtilHigh,
    ReduceOnlyInputMissingOrStale,
    ReduceOnlyWatchdogUnconfirmed,
    ReduceOnlyDiskKillUnconfirmed,
    ReduceOnlySessionKillUnconfirmed,
}

pub open spec fn reason_index(r: ModeReasonCode) -> u8 {
    match r {
        ModeReasonCode::KillWatchdogHeartbeatStale => 0,
        ModeReasonCode::KillRiskstateKill => 1,
        ModeReasonCode::KillMarginMmUtilCritical => 2,
        ModeReasonCode::KillRateLimitSessionTermination => 3,
        ModeReasonCode::KillDiskWatermarkKill => 4,
        ModeReasonCode::KillCortexForceKill => 5,
        ModeReasonCode::ReduceOnlyRiskstateMaintenance => 6,
        ModeReasonCode::ReduceOnlyEmergencyReduceOnlyActive => 7,
        ModeReasonCode::ReduceOnlyOpenPermissionLatched => 8,
        ModeReasonCode::ReduceOnlyBunkerModeActive => 9,
        ModeReasonCode::ReduceOnlyF1CertInvalid => 10,
        ModeReasonCode::ReduceOnlyEvidenceChainNotGreen => 11,
        ModeReasonCode::ReduceOnlyCortexForceReduceOnly => 12,
        ModeReasonCode::ReduceOnlyFeeModelHardStale => 13,
        ModeReasonCode::ReduceOnlyRiskstateDegraded => 14,
        ModeReasonCode::ReduceOnlyPolicyStale => 15,
        ModeReasonCode::ReduceOnlyMarginMmUtilHigh => 16,
        ModeReasonCode::ReduceOnlyInputMissingOrStale => 17,
        ModeReasonCode::ReduceOnlyWatchdogUnconfirmed => 18,
        ModeReasonCode::ReduceOnlyDiskKillUnconfirmed => 19,
        ModeReasonCode::ReduceOnlySessionKillUnconfirmed => 20,
    }
}

/// Kill-tier codes are exactly those with a canonical index below 6.
pub open spec fn reason_is_kill_tier(r: ModeReasonCode) -> bool {
    reason_index(r) < 6
}

impl ModeReasonCode {
    pub fn is_kill_tier(self) -> (b: bool)
        ensures
            b == reason_is_kill_tier(self),
    {
        matches!(
            self,
            ModeReasonCode::KillWatchdogHeartbeatStale
                | ModeReasonCode::KillRiskstateKill
                | ModeReasonCode::KillMarginMmUtilCritical
                | ModeReasonCode::KillRateLimitSessionTermination
                | ModeReasonCode::KillDiskWatermarkKill
                | ModeReasonCode::KillCortexForceKill
        )
    }

    pub fn is_reduceonly_tier(self) -> (b: bool)
        ensures
            b == !reason_is_kill_tier(self),
    {
        !self.is_kill_tier()
    }

    pub fn canonical_index(self) -> (i: u8)
        ensures
            i == reason_index(self),
    {
        match self {
            ModeReasonCode::KillWatchdogHeartbeatStale => 0,
            ModeReasonCode::KillRiskstateKill => 1,
            ModeReasonCode::KillMarginMmUtilCritical => 2,
            ModeReasonCode::KillRateLimitSessionTermination => 3,
            ModeReasonCode::KillDiskWatermarkKill => 4,
            ModeReasonCode::KillCortexForceKill => 5,
            ModeReasonCode::ReduceOnlyRiskstateMaintenance => 6,
            ModeReasonCode::ReduceOnlyEmergencyReduceOnlyActive => 7,
            ModeReasonCode::ReduceOnlyOpenPermissionLatched => 8,
            ModeReasonCode::ReduceOnlyBunkerModeActive => 9,
            ModeReasonCode::ReduceOnlyF1CertInvalid => 10,
            ModeReasonCode::ReduceOnlyEvidenceChainNotGreen => 11,
            ModeReasonCode::ReduceOnlyCortexForceReduceOnly => 12,
            ModeReasonCode::ReduceOnlyFeeModelHardStale => 13,
            ModeReasonCode::ReduceOnlyRiskstateDegraded => 14,
            ModeReasonCode::ReduceOnlyPolicyStale => 15,
            ModeReasonCode::ReduceOnlyMarginMmUtilHigh => 16,
            ModeReasonCode::ReduceOnlyInputMissingOrStale => 17,
            ModeReasonCode::ReduceOnlyWatchdogUnconfirmed => 18,
            ModeReasonCode::ReduceOnlyDiskKillUnconfirmed => 19,
            ModeReasonCode::ReduceOnlySessionKillUnconfirmed => 20,
        }
    }
}

// ─── The pure 27-state resolver ───────────────────────────────────────────────

pub open spec fn resolve_mode_spec(
    capital: CapitalRiskAxis,
    market: MarketIntegrityAxis,
    system: SystemIntegrityAxis,
) -> PolicyTradingMode {
    if system == SystemIntegrityAxis::Failing || capital == CapitalRiskAxis::Critical {
        PolicyTradingMode::Kill
    } else if system == SystemIntegrityAxis::Degraded || market != MarketIntegrityAxis::Stable
        || capital == CapitalRiskAxis::Warning {
        PolicyTradingMode::ReduceOnly
    } else {
        PolicyTradingMode::Active
    }
}

pub fn resolve_trading_mode(
    capital: CapitalRiskAxis,
    market: MarketIntegrityAxis,
    system: SystemIntegrityAxis,
) -> (m: PolicyTradingMode)
    ensures
        m == resolve_mode_spec(capital, market, system),
{
    if system == SystemIntegrityAxis::Failing || capital == CapitalRiskAxis::Critical {
        return PolicyTradingMode::Kill;
    }
    if system == SystemIntegrityAxis::Degraded || market != MarketIntegrityAxis::Stable
        || capital == CapitalRiskAxis::Warning {
        return PolicyTradingMode::ReduceOnly;
    }
    PolicyTradingMode::Active
}

pub open spec fn capital_rank(c: CapitalRiskAxis) -> int {
    match c {
        CapitalRiskAxis::Safe => 0,
        CapitalRiskAxis::Warning => 1,
        CapitalRiskAxis::Critical => 2,
    }
}

pub open spec fn market_rank(m: MarketIntegrityAxis) -> int {
    match m {
        MarketIntegrityAxis::Stable => 0,
        MarketIntegrityAxis::Stressed => 1,
        MarketIntegrityAxis::Broken => 2,
    }
}

pub open spec fn system_rank(s: SystemIntegrityAxis) -> int {
    match s {
        SystemIntegrityAxis::Healthy => 0,
        SystemIntegrityAxis::Degraded => 1,
        SystemIntegrityAxis::Failing => 2,
    }
}

/// The resolver is monotone: a worse reading on any axis never yields a less
/// restrictive trading mode.
pub proof fn lemma_resolver_monotone(
    c1: CapitalRiskAxis,
    m1: MarketIntegrityAxis,
    s1: SystemIntegrityAxis,
    c2: CapitalRiskAxis,
    m2: MarketIntegrityAxis,
    s2: SystemIntegrityAxis,
)
    requires
        capital_rank(c1) <= capital_rank(c2),
        market_rank(m1) <= market_rank(m2),
        system_rank(s1) <= system_rank(s2),
    ensures
        mode_restrictiveness(resolve_mode_spec(c1, m1, s1)) <= mode_restrictiveness(
            resolve_mode_spec(c2, m2, s2),
        ),
{
}

/// `Active` exactly when every axis is at its best value.
pub proof fn lemma_active_iff_all_axes_nominal(
    capital: CapitalRiskAxis,
    market: MarketIntegrityAxis,
    system: SystemIntegrityAxis,
)
    ensures
        (resolve_mode_spec(capital, market, system) == PolicyTradingMode::Active) <==> (capital
            == CapitalRiskAxis::Safe && market == MarketIntegrityAxis::Stable && system
            == SystemIntegrityAxis::Healthy),
{
}

} // verus!

verus! {

// ─── Inputs, configuration and the axis computations ──────────────────────────

/// Margin utilisation, as read against the two configured thresholds.
#[derive(Debug, Clone, Copy, PartialEq, Eq, Structural)]
pub struct MmUtilReading {
    /// mm_util >= mm_util_kill.
    pub at_kill: bool,
    /// mm_util >= mm_util_reduceonly.
    pub at_reduceonly: bool,
}

/// Configuration for the axis resolver (freshness windows, counters and budgets).
///
/// The ratio thresholds (`mm_util_kill`, `mm_util_reduceonly`, `disk_kill_pct`) are applied
/// where the readings are taken; the inputs carry the outcome of those comparisons.
#[derive(Debug, Clone, Copy, PartialEq, Eq, Structural)]
pub struct PolicyGuardConfig {
    pub mm_util_max_age_ms: u64,
    pub disk_used_max_age_ms: u64,
    pub max_policy_age_sec: u64,
    pub watchdog_kill_s: u64,
    pub rate_limit_kill_min_10028: u64,
    pub cancel_open_batch_max: u32,
    pub cancel_open_budget_ms: u64,
    pub fee_model_hard_stale_s: u64,
}

impl Default for PolicyGuardConfig {
    fn default() -> (c: Self)
        ensures
            c.mm_util_max_age_ms == 30_000,
            c.disk_used_max_age_ms == 30_000,
            c.max_policy_age_sec == 300,
            c.watchdog_kill_s == 10,
            c.rate_limit_kill_min_10028 == 3,
            c.cancel_open_batch_max == 50,
            c.cancel_open_budget_ms == 200,
            c.fee_model_hard_stale_s == 3_600,
    {
        Self {
            mm_util_max_age_ms: 30_000,
            disk_used_max_age_ms: 30_000,
            max_policy_age_sec: 300,
            watchdog_kill_s: 10,
            rate_limit_kill_min_10028: 3,
            cancel_open_batch_max: 50,
            cancel_open_budget_ms: 200,
            fee_model_hard_stale_s: 3_600,
        }
    }
}

/// Coherent input snapshot for the axis resolver.
#[derive(Debug, Clone, Copy, PartialEq, Eq, Structural)]
pub struct PolicyGuardInputs {
    pub now_ms: u64,
    /// Margin utilisation reading. `None` = missing (fail-closed).
    pub mm_util: Option<MmUtilReading>,
    pub mm_util_last_update_ts_ms: Option<u64>,
    pub risk_state: PolicyRiskState,
    pub cortex_override: CortexOverride,
    pub bunker_mode_active: bool,
    pub watchdog_last_heartbeat_ts_ms: Option<u64>,
    pub loop_tick_last_ts_ms: Option<u64>,
    /// Primary disk utilisation at or above `disk_kill_pct`. `None` = missing (fail-closed).
    pub disk_used_at_kill: Option<bool>,
    pub disk_used_last_update_ts_ms: Option<u64>,
    /// Secondary disk utilisation at or above `disk_kill_pct`. `None` = unconfirmed.
    pub disk_used_secondary_at_kill: Option<bool>,
    pub disk_used_secondary_last_update_ts_ms: Option<u64>,
    pub rate_limit_session_kill_active: Option<bool>,
    pub count_10028_5m: Option<u64>,
    pub emergency_reduceonly_active: bool,
    pub open_permission_blocked_latch: bool,
    pub evidence_chain_state: PolicyEvidenceState,
    pub f1_cert_status: F1CertStatus,
    pub basis_decision: PolicyBasisDecision,
    pub fee_model_cache_age_s: Option<u64>,
    pub policy_age_sec: u64,
    pub enforced_profile: EnforcedProfile,
}

/// The configuration keeps `watchdog_kill_s * 1000` within `u64`.
pub open spec fn guard_config_ok(config: PolicyGuardConfig) -> bool {
    config.watchdog_kill_s <= u64::MAX / 1000
}

/// Elapsed milliseconds from `ts` to `now`, saturating at zero.
pub open spec fn age_ms(now: u64, ts: u64) -> int {
    if now >= ts {
        now - ts
    } else {
        0
    }
}

pub open spec fn mm_kill_spec(i: PolicyGuardInputs) -> bool {
    i.mm_util matches Some(r) && r.at_kill
}

pub open spec fn mm_reduceonly_spec(i: PolicyGuardInputs) -> bool {
    i.mm_util matches Some(r) && r.at_reduceonly
}

pub open spec fn watchdog_stale_spec(i: PolicyGuardInputs, c: PolicyGuardConfig) -> bool {
    match i.watchdog_last_heartbeat_ts_ms {
        Some(ts) => age_ms(i.now_ms, ts) > c.watchdog_kill_s * 1000,
        None => true,
    }
}

pub open spec fn loop_tick_stale_spec(i: PolicyGuardInputs, c: PolicyGuardConfig) -> bool {
    match i.loop_tick_last_ts_ms {
        Some(ts) => age_ms(i.now_ms, ts) > c.watchdog_kill_s * 1000,
        None => true,
    }
}

pub open spec fn disk_primary_trip_spec(i: PolicyGuardInputs) -> bool {
    i.disk_used_at_kill == Some(true)
}

pub open spec fn disk_secondary_confirmed_spec(i: PolicyGuardInputs, c: PolicyGuardConfig) -> bool {
    match (i.disk_used_secondary_at_kill, i.disk_used_secondary_last_update_ts_ms) {
        (Some(v), Some(ts)) => age_ms(i.now_ms, ts) <= c.disk_used_max_age_ms && v,
        _ => false,
    }
}

pub open spec fn session_active_spec(i: PolicyGuardInputs) -> bool {
    i.rate_limit_session_kill_active == Some(true)
}

pub open spec fn count_sufficient_spec(i: PolicyGuardInputs, c: PolicyGuardConfig) -> bool {
    i.count_10028_5m matches Some(n) && n >= c.rate_limit_kill_min_10028
}

pub open spec fn watchdog_kill_spec(i: PolicyGuardInputs, c: PolicyGuardConfig) -> bool {
    watchdog_stale_spec(i, c) && loop_tick_stale_spec(i, c)
}

pub open spec fn disk_kill_spec(i: PolicyGuardInputs, c: PolicyGuardConfig) -> bool {
    disk_primary_trip_spec(i) && disk_secondary_confirmed_spec(i, c)
}

pub open spec fn session_kill_spec(i: PolicyGuardInputs, c: PolicyGuardConfig) -> bool {
    session_active_spec(i) && count_sufficient_spec(i, c)
}

pub open spec fn watchdog_unconfirmed_spec(i: PolicyGuardInputs, c: PolicyGuardConfig) -> bool {
    watchdog_stale_spec(i, c) && !loop_tick_stale_spec(i, c)
}

pub open spec fn disk_unconfirmed_spec(i: PolicyGuardInputs, c: PolicyGuardConfig) -> bool {
    disk_primary_trip_spec(i) && !disk_secondary_confirmed_spec(i, c)
}

pub open spec fn session_unconfirmed_spec(i: PolicyGuardInputs, c: PolicyGuardConfig) -> bool {
    session_active_spec(i) && !count_sufficient_spec(i, c)
}

/// A critical input is missing or older than its freshness window.
pub open spec fn critical_missing_spec(i: PolicyGuardInputs, c: PolicyGuardConfig) -> bool {
    ||| i.mm_util is None
    ||| i.mm_util_last_update_ts_ms is None
    ||| (i.mm_util_last_update_ts_ms matches Some(ts) && age_ms(i.now_ms, ts) > c.mm_util_max_age_ms)
    ||| i.disk_used_at_kill is None
    ||| i.disk_used_last_update_ts_ms is None
    ||| (i.disk_used_last_update_ts_ms matches Some(ts) && age_ms(i.now_ms, ts) > c.disk_used_max_age_ms)
    ||| i.rate_limit_session_kill_active is None
    ||| i.watchdog_last_heartbeat_ts_ms is None
}

pub open spec fn evidence_not_green_spec(i: PolicyGuardInputs) -> bool {
    i.enforced_profile != EnforcedProfile::Csp && i.evidence_chain_state
        == PolicyEvidenceState::NotGreen
}

pub open spec fn fee_stale_spec(i: PolicyGuardInputs, c: PolicyGuardConfig) -> bool {
    i.fee_model_cache_age_s matches Some(age) && age > c.fee_model_hard_stale_s
}

pub open spec fn capital_axis_spec(i: PolicyGuardInputs) -> CapitalRiskAxis {
    if mm_kill_spec(i) || i.risk_state == PolicyRiskState::Kill || i.cortex_override
        == CortexOverride::ForceKill || i.basis_decision == PolicyBasisDecision::ForceKill {
        CapitalRiskAxis::Critical
    } else if mm_reduceonly_spec(i) {
        CapitalRiskAxis::Warning
    } else {
        CapitalRiskAxis::Safe
    }
}

pub open spec fn market_axis_spec(i: PolicyGuardInputs) -> MarketIntegrityAxis {
    if i.bunker_mode_active {
        MarketIntegrityAxis::Stressed
    } else {
        MarketIntegrityAxis::Stable
    }
}

pub open spec fn system_degraded_spec(i: PolicyGuardInputs, c: PolicyGuardConfig) -> bool {
    ||| i.risk_state == PolicyRiskState::Degraded
    ||| i.risk_state == PolicyRiskState::Maintenance
    ||| i.emergency_reduceonly_active
    ||| i.open_permission_blocked_latch
    ||| evidence_not_green_spec(i)
    ||| i.f1_cert_status != F1CertStatus::Valid
    ||| i.cortex_override == CortexOverride::ForceReduceOnly
    ||| i.basis_decision != PolicyBasisDecision::Normal
    ||| fee_stale_spec(i, c)
    ||| i.policy_age_sec > c.max_policy_age_sec
    ||| critical_missing_spec(i, c)
    ||| watchdog_unconfirmed_spec(i, c)
    ||| disk_unconfirmed_spec(i, c)
    ||| session_unconfirmed_spec(i, c)
}

pub open spec fn system_axis_spec(i: PolicyGuardInputs, c: PolicyGuardConfig) -> SystemIntegrityAxis {
    if watchdog_kill_spec(i, c) || disk_kill_spec(i, c) || session_kill_spec(i, c) {
        SystemIntegrityAxis::Failing
    } else if system_degraded_spec(i, c) {
        SystemIntegrityAxis::Degraded
    } else {
        SystemIntegrityAxis::Healthy
    }
}

pub open spec fn effective_mode_spec(i: PolicyGuardInputs, c: PolicyGuardConfig) -> PolicyTradingMode {
    resolve_mode_spec(capital_axis_spec(i), market_axis_spec(i), system_axis_spec(i, c))
}

/// `s` with `r` appended when `cond` holds.
#[verifier::opaque]
pub open spec fn push_if(s: Seq<ModeReasonCode>, cond: bool, r: ModeReasonCode) -> Seq<ModeReasonCode> {
    if cond {
        s.push(r)
    } else {
        s
    }
}

pub open spec fn kill_reasons_spec(i: PolicyGuardInputs, c: PolicyGuardConfig) -> Seq<ModeReasonCode> {
    let s0 = Seq::<ModeReasonCode>::empty();
    let s1 = push_if(s0, watchdog_kill_spec(i, c), ModeReasonCode::KillWatchdogHeartbeatStale);
    let s2 = push_if(s1, i.risk_state == PolicyRiskState::Kill, ModeReasonCode::KillRiskstateKill);
    let s3 = push_if(s2, mm_kill_spec(i), ModeReasonCode::KillMarginMmUtilCritical);
    let s4 = push_if(s3, session_kill_spec(i, c), ModeReasonCode::KillRateLimitSessionTermination);
    let s5 = push_if(s4, disk_kill_spec(i, c), ModeReasonCode::KillDiskWatermarkKill);
    push_if(
        s5,
        i.cortex_override == CortexOverride::ForceKill || i.basis_decision
            == PolicyBasisDecision::ForceKill,
        ModeReasonCode::KillCortexForceKill,
    )
}

/// The reduce-only tier reasons, each appended when its flag holds, in canonical order.
pub open spec fn ro_chain(
    c1: bool, c2: bool, c3: bool, c4: bool, c5: bool, c6: bool, c7: bool, c8: bool,
    c9: bool, c10: bool, c11: bool, c12: bool, c13: bool, c14: bool, c15: bool,
) -> Seq<ModeReasonCode> {
    let s0 = Seq::<ModeReasonCode>::empty();
    let s1 = push_if(s0, c1, ModeReasonCode::ReduceOnlyRiskstateMaintenance);
    let s2 = push_if(s1, c2, ModeReasonCode::ReduceOnlyEmergencyReduceOnlyActive);
    let s3 = push_if(s2, c3, ModeReasonCode::ReduceOnlyOpenPermissionLatched);
    let s4 = push_if(s3, c4, ModeReasonCode::ReduceOnlyBunkerModeActive);
    let s5 = push_if(s4, c5, ModeReasonCode::ReduceOnlyF1CertInvalid);
    let s6 = push_if(s5, c6, ModeReasonCode::ReduceOnlyEvidenceChainNotGreen);
    let s7 = push_if(s6, c7, ModeReasonCode::ReduceOnlyCortexForceReduceOnly);
    let s8 = push_if(s7, c8, ModeReasonCode::ReduceOnlyFeeModelHardStale);
    let s9 = push_if(s8, c9, ModeReasonCode::ReduceOnlyRiskstateDegraded);
    let s10 = push_if(s9, c10, ModeReasonCode::ReduceOnlyPolicyStale);
    let s11 = push_if(s10, c11, ModeReasonCode::ReduceOnlyMarginMmUtilHigh);
    let s12 = push_if(s11, c12, ModeReasonCode::ReduceOnlyInputMissingOrStale);
    let s13 = push_if(s12, c13, ModeReasonCode::ReduceOnlyWatchdogUnconfirmed);
    let s14 = push_if(s13, c14, ModeReasonCode::ReduceOnlyDiskKillUnconfirmed);
    push_if(s14, c15, ModeReasonCode::ReduceOnlySessionKillUnconfirmed)
}

pub open spec fn reduceonly_reasons_spec(i: PolicyGuardInputs, c: PolicyGuardConfig) -> Seq<ModeReasonCode> {
    ro_chain(
        i.risk_state == PolicyRiskState::Maintenance,
        i.emergency_reduceonly_active,
        i.open_permission_blocked_latch,
        i.bunker_mode_active,
        i.f1_cert_status != F1CertStatus::Valid,
        evidence_not_green_spec(i),
        i.cortex_override == CortexOverride::ForceReduceOnly || i.basis_decision
            == PolicyBasisDecision::ForceReduceOnly,
        fee_stale_spec(i, c),
        i.risk_state == PolicyRiskState::Degraded,
        i.policy_age_sec > c.max_policy_age_sec,
        mm_reduceonly_spec(i) && !mm_kill_spec(i),
        critical_missing_spec(i, c),
        watchdog_unconfirmed_spec(i, c),
        disk_unconfirmed_spec(i, c),
        session_unconfirmed_spec(i, c),
    )
}

/// The reason codes reported for a mode: none for `Active`, the active reasons of the
/// mode's own tier otherwise, in canonical order.
pub open spec fn mode_reasons_spec(
    mode: PolicyTradingMode,
    i: PolicyGuardInputs,
    c: PolicyGuardConfig,
) -> Seq<ModeReasonCode> {
    match mode {
        PolicyTradingMode::Active => Seq::empty(),
        PolicyTradingMode::Kill => kill_reasons_spec(i, c),
        PolicyTradingMode::ReduceOnly => reduceonly_reasons_spec(i, c),
    }
}

/// Shared staleness and corroboration predicates.
struct KillPredicates {
    watchdog_heartbeat_stale: bool,
    loop_tick_stale: bool,
    disk_primary_trip: bool,
    disk_secondary_confirmed: bool,
    session_kill_active: bool,
    count_10028_sufficient: bool,
}

impl KillPredicates {
    spec fn matches_inputs(self, i: PolicyGuardInputs, c: PolicyGuardConfig) -> bool {
        &&& self.watchdog_heartbeat_stale == watchdog_stale_spec(i, c)
        &&& self.loop_tick_stale == loop_tick_stale_spec(i, c)
        &&& self.disk_primary_trip == disk_primary_trip_spec(i)
        &&& self.disk_secondary_confirmed == disk_secondary_confirmed_spec(i, c)
        &&& self.session_kill_active == session_active_spec(i)
        &&& self.count_10028_sufficient == count_sufficient_spec(i, c)
    }

    fn watchdog_kill_confirmed(&self) -> (r: bool)
        ensures
            r == (self.watchdog_heartbeat_stale && self.loop_tick_stale),
    {
        self.watchdog_heartbeat_stale && self.loop_tick_stale
    }

    fn disk_kill_confirmed(&self) -> (r: bool)
        ensures
            r == (self.disk_primary_trip && self.disk_secondary_confirmed),
    {
        self.disk_primary_trip && self.disk_secondary_confirmed
    }

    fn session_kill_confirmed(&self) -> (r: bool)
        ensures
            r == (self.session_kill_active && self.count_10028_sufficient),
    {
        self.session_kill_active && self.count_10028_sufficient
    }

    fn watchdog_unconfirmed(&self) -> (r: bool)
        ensures
            r == (self.watchdog_heartbeat_stale && !self.loop_tick_stale),
    {
        self.watchdog_heartbeat_stale && !self.loop_tick_stale
    }

    fn disk_unconfirmed(&self) -> (r: bool)
        ensures
            r == (self.disk_primary_trip && !self.disk_secondary_confirmed),
    {
        self.disk_primary_trip && !self.disk_secondary_confirmed
    }

    fn session_unconfirmed(&self) -> (r: bool)
        ensures
            r == (self.session_kill_active && !self.count_10028_sufficient),
    {
        self.session_kill_active && !self.count_10028_sufficient
    }
}

fn elapsed_ms(now: u64, ts: u64) -> (r: u64)
    ensures
        r == age_ms(now, ts),
{
    now.saturating_sub(ts)
}

fn compute_kill_predicates(inputs: &PolicyGuardInputs, config: &PolicyGuardConfig) -> (kp: KillPredicates)
    requires
        guard_config_ok(*config),
    ensures
        kp.matches_inputs(*inputs, *config),
{
    let kill_window_ms = config.watchdog_kill_s * 1_000;
    let watchdog_heartbeat_stale = match inputs.watchdog_last_heartbeat_ts_ms {
        Some(ts) => elapsed_ms(inputs.now_ms, ts) > kill_window_ms,
        None => true,
    };
    let loop_tick_stale = match inputs.loop_tick_last_ts_ms {
        Some(ts) => elapsed_ms(inputs.now_ms, ts) > kill_window_ms,
        None => true,
    };
    let disk_primary_trip = match inputs.disk_used_at_kill {
        Some(v) => v,
        None => false,
    };
    let disk_secondary_confirmed = match (
        inputs.disk_used_secondary_at_kill,
        inputs.disk_used_secondary_last_update_ts_ms,
    ) {
        (Some(v), Some(ts)) => {
            let fresh = elapsed_ms(inputs.now_ms, ts) <= config.disk_used_max_age_ms;
            fresh && v
        },
        _ => false,
    };
    let session_kill_active = match inputs.rate_limit_session_kill_active {
        Some(v) => v,
        None => false,
    };
    let count_10028_sufficient = match inputs.count_10028_5m {
        Some(c) => c >= config.rate_limit_kill_min_10028,
        None => false,
    };
    KillPredicates {
        watchdog_heartbeat_stale,
        loop_tick_stale,
        disk_primary_trip,
        disk_secondary_confirmed,
        session_kill_active,
        count_10028_sufficient,
    }
}

fn mm_util_at_kill(inputs: &PolicyGuardInputs) -> (r: bool)
    ensures
        r == mm_kill_spec(*inputs),
{
    match inputs.mm_util {
        Some(r) => r.at_kill,
        None => false,
    }
}

fn mm_util_at_reduceonly(inputs: &PolicyGuardInputs) -> (r: bool)
    ensures
        r == mm_reduceonly_spec(*inputs),
{
    match inputs.mm_util {
        Some(r) => r.at_reduceonly,
        None => false,
    }
}

fn fee_model_hard_stale(inputs: &PolicyGuardInputs, config: &PolicyGuardConfig) -> (r: bool)
    ensures
        r == fee_stale_spec(*inputs, *config),
{
    match inputs.fee_model_cache_age_s {
        Some(age) => age > config.fee_model_hard_stale_s,
        None => false,
    }
}

fn evidence_not_green(inputs: &PolicyGuardInputs) -> (r: bool)
    ensures
        r == evidence_not_green_spec(*inputs),
{
    !inputs.enforced_profile.is_csp_only() && inputs.evidence_chain_state
        == PolicyEvidenceState::NotGreen
}

fn compute_capital_axis(inputs: &PolicyGuardInputs) -> (c: CapitalRiskAxis)
    ensures
        c == capital_axis_spec(*inputs),
{
    if mm_util_at_kill(inputs) || inputs.risk_state == PolicyRiskState::Kill
        || inputs.cortex_override == CortexOverride::ForceKill || inputs.basis_decision
        == PolicyBasisDecision::ForceKill {
        return CapitalRiskAxis::Critical;
    }
    if mm_util_at_reduceonly(inputs) {
        return CapitalRiskAxis::Warning;
    }
    CapitalRiskAxis::Safe
}

fn compute_market_axis(inputs: &PolicyGuardInputs) -> (m: MarketIntegrityAxis)
    ensures
        m == market_axis_spec(*inputs),
{
    if inputs.bunker_mode_active {
        MarketIntegrityAxis::Stressed
    } else {
        MarketIntegrityAxis::Stable
    }
}

fn critical_inputs_missing_or_stale(inputs: &PolicyGuardInputs, config: &PolicyGuardConfig) -> (r: bool)
    ensures
        r == critical_missing_spec(*inputs, *config),
{
    match (inputs.mm_util, inputs.mm_util_last_update_ts_ms) {
        (None, _) => return true,
        (_, None) => return true,
        (Some(_), Some(ts)) => {
            if elapsed_ms(inputs.now_ms, ts) > config.mm_util_max_age_ms {
                return true;
            }
        },
    }
    match (inputs.disk_used_at_kill, inputs.disk_used_last_update_ts_ms) {
        (None, _) => return true,
        (_, None) => return true,
        (Some(_), Some(ts)) => {
            if elapsed_ms(inputs.now_ms, ts) > config.disk_used_max_age_ms {
                return true;
            }
        },
    }
    if inputs.rate_limit_session_kill_active.is_none() {
        return true;
    }
    if inputs.watchdog_last_heartbeat_ts_ms.is_none() {
        return true;
    }
    false
}

fn compute_system_axis(inputs: &PolicyGuardInputs, config: &PolicyGuardConfig) -> (s: SystemIntegrityAxis)
    requires
        guard_config_ok(*config),
    ensures
        s == system_axis_spec(*inputs, *config),
{
    let kp = compute_kill_predicates(inputs, config);
    if kp.watchdog_kill_confirmed() || kp.disk_kill_confirmed() || kp.session_kill_confirmed() {
        return SystemIntegrityAxis::Failing;
    }
    let risk_degraded = matches!(
        inputs.risk_state,
        PolicyRiskState::Degraded | PolicyRiskState::Maintenance
    );
    let evidence = evidence_not_green(inputs);
    let f1_invalid = inputs.f1_cert_status.requires_reduce_only();
    let cortex_reduce = inputs.cortex_override == CortexOverride::ForceReduceOnly;
    let fee_stale = fee_model_hard_stale(inputs, config);
    let policy_stale = inputs.policy_age_sec > config.max_policy_age_sec;
    let critical_missing = critical_inputs_missing_or_stale(inputs, config);
    let basis_trips = matches!(
        inputs.basis_decision,
        PolicyBasisDecision::ForceReduceOnly | PolicyBasisDecision::ForceKill
    );
    if risk_degraded || inputs.emergency_reduceonly_active || inputs.open_permission_blocked_latch
        || evidence || f1_invalid || cortex_reduce || basis_trips || fee_stale || policy_stale
        || critical_missing || kp.watchdog_unconfirmed() || kp.disk_unconfirmed()
        || kp.session_unconfirmed() {
        return SystemIntegrityAxis::Degraded;
    }
    SystemIntegrityAxis::Healthy
}

fn push_reason_if(reasons: &mut Vec<ModeReasonCode>, cond: bool, r: ModeReasonCode)
    ensures
        final(reasons)@ == push_if(old(reasons)@, cond, r),
{
    reveal(push_if);
    if cond {
        reasons.push(r);
    }
}

fn collect_mode_reasons(
    mode: PolicyTradingMode,
    inputs: &PolicyGuardInputs,
    config: &PolicyGuardConfig,
) -> (reasons: Vec<ModeReasonCode>)
    requires
        guard_config_ok(*config),
    ensures
        reasons@ == mode_reasons_spec(mode, *inputs, *config),
{
    let mut reasons: Vec<ModeReasonCode> = Vec::new();
    let kp = compute_kill_predicates(inputs, config);
    match mode {
        PolicyTradingMode::Active => {},
        PolicyTradingMode::Kill => {
            push_reason_if(&mut reasons, kp.watchdog_kill_confirmed(), ModeReasonCode::KillWatchdogHeartbeatStale);
            push_reason_if(&mut reasons, inputs.risk_state == PolicyRiskState::Kill, ModeReasonCode::KillRiskstateKill);
            push_reason_if(&mut reasons, mm_util_at_kill(inputs), ModeReasonCode::KillMarginMmUtilCritical);
            push_reason_if(&mut reasons, kp.session_kill_confirmed(), ModeReasonCode::KillRateLimitSessionTermination);
            push_reason_if(&mut reasons, kp.disk_kill_confirmed(), ModeReasonCode::KillDiskWatermarkKill);
            push_reason_if(
                &mut reasons,
                inputs.cortex_override == CortexOverride::ForceKill || inputs.basis_decision
                    == PolicyBasisDecision::ForceKill,
                ModeReasonCode::KillCortexForceKill,
            );
        },
        PolicyTradingMode::ReduceOnly => {
            push_reason_if(&mut reasons, inputs.risk_state == PolicyRiskState::Maintenance, ModeReasonCode::ReduceOnlyRiskstateMaintenance);
            push_reason_if(&mut reasons, inputs.emergency_reduceonly_active, ModeReasonCode::ReduceOnlyEmergencyReduceOnlyActive);
            push_reason_if(&mut reasons, inputs.open_permission_blocked_latch, ModeReasonCode::ReduceOnlyOpenPermissionLatched);
            push_reason_if(&mut reasons, inputs.bunker_mode_active, ModeReasonCode::ReduceOnlyBunkerModeActive);
            push_reason_if(&mut reasons, inputs.f1_cert_status.requires_reduce_only(), ModeReasonCode::ReduceOnlyF1CertInvalid);
            push_reason_if(&mut reasons, evidence_not_green(inputs), ModeReasonCode::ReduceOnlyEvidenceChainNotGreen);
            push_reason_if(
                &mut reasons,
                inputs.cortex_override == CortexOverride::ForceReduceOnly || inputs.basis_decision
                    == PolicyBasisDecision::ForceReduceOnly,
                ModeReasonCode::ReduceOnlyCortexForceReduceOnly,
            );
            push_reason_if(&mut reasons, fee_model_hard_stale(inputs, config), ModeReasonCode::ReduceOnlyFeeModelHardStale);
            push_reason_if(&mut reasons, inputs.risk_state == PolicyRiskState::Degraded, ModeReasonCode::ReduceOnlyRiskstateDegraded);
            push_reason_if(&mut reasons, inputs.policy_age_sec > config.max_policy_age_sec, ModeReasonCode::ReduceOnlyPolicyStale);
            let mm_warning = mm_util_at_reduceonly(inputs) && !mm_util_at_kill(inputs);
            push_reason_if(&mut reasons, mm_warning, ModeReasonCode::ReduceOnlyMarginMmUtilHigh);
            push_reason_if(&mut reasons, critical_inputs_missing_or_stale(inputs, config), ModeReasonCode::ReduceOnlyInputMissingOrStale);
            push_reason_if(&mut reasons, kp.watchdog_unconfirmed(), ModeReasonCode::ReduceOnlyWatchdogUnconfirmed);
            push_reason_if(&mut reasons, kp.disk_unconfirmed(), ModeReasonCode::ReduceOnlyDiskKillUnconfirmed);
            push_reason_if(&mut reasons, kp.session_unconfirmed(), ModeReasonCode::ReduceOnlySessionKillUnconfirmed);
        },
    }
    reasons
}

} // verus!

verus! {

// ─── The resolver with its observability counter ──────────────────────────────

/// Result of one axis-resolver evaluation.
#[derive(Debug, Clone)]
pub struct PolicyGuardResult {
    pub trading_mode: PolicyTradingMode,
    pub mode_reasons: Vec<ModeReasonCode>,
    pub capital_axis: CapitalRiskAxis,
    pub market_axis: MarketIntegrityAxis,
    pub system_axis: SystemIntegrityAxis,
    pub policy_age_sec: u64,
    pub policy_stale_this_tick: bool,
}

/// The axis resolver; it keeps one counter of ticks on which a stale policy forced ReduceOnly.
pub struct AxisResolver {
    pub policy_stale_reduceonly_total: u64,
}

fn contains_reason(reasons: &Vec<ModeReasonCode>, target: ModeReasonCode) -> (r: bool)
    ensures
        r == reasons@.contains(target),
{
    let mut i: usize = 0;
    while i < reasons.len()
        invariant
            i <= reasons@.len(),
            forall|j: int| 0 <= j < i ==> reasons@[j] != target,
        decreases reasons@.len() - i,
    {
        if reasons[i] == target {
            return true;
        }
        i = i + 1;
    }
    false
}

/// What one resolver evaluation returns for an input snapshot and configuration.
pub open spec fn resolver_output(result: PolicyGuardResult, inputs: PolicyGuardInputs, config: PolicyGuardConfig) -> bool {
    &&& result.capital_axis == capital_axis_spec(inputs)
    &&& result.market_axis == market_axis_spec(inputs)
    &&& result.system_axis == system_axis_spec(inputs, config)
    &&& result.trading_mode == effective_mode_spec(inputs, config)
    &&& result.mode_reasons@ == mode_reasons_spec(result.trading_mode, inputs, config)
    &&& result.policy_age_sec == inputs.policy_age_sec
    &&& result.policy_stale_this_tick == (result.trading_mode == PolicyTradingMode::ReduceOnly
        && inputs.policy_age_sec > config.max_policy_age_sec)
}

/// Law (no hidden state): the resolver's result depends on the input snapshot and the
/// configuration alone; two evaluations of the same snapshot, whatever the resolver's
/// counter, agree in every field (the counter only counts stale-policy ticks).
pub proof fn lemma_resolver_is_pure(
    r1: PolicyGuardResult,
    r2: PolicyGuardResult,
    inputs: PolicyGuardInputs,
    config: PolicyGuardConfig,
)
    requires
        resolver_output(r1, inputs, config),
        resolver_output(r2, inputs, config),
    ensures
        r1.trading_mode == r2.trading_mode,
        r1.mode_reasons@ == r2.mode_reasons@,
        r1.capital_axis == r2.capital_axis,
        r1.market_axis == r2.market_axis,
        r1.system_axis == r2.system_axis,
        r1.policy_age_sec == r2.policy_age_sec,
        r1.policy_stale_this_tick == r2.policy_stale_this_tick,
{
}

impl AxisResolver {
    pub fn new() -> (r: Self)
        ensures
            r.policy_stale_reduceonly_total == 0,
    {
        Self { policy_stale_reduceonly_total: 0 }
    }

    /// Computes the trading mode, its reasons and the three axes from one input snapshot.
    pub fn get_effective_mode(&mut self, inputs: &PolicyGuardInputs, config: &PolicyGuardConfig) -> (result: PolicyGuardResult)
        requires
            guard_config_ok(*config),
        ensures
            resolver_output(result, *inputs, *config),
            final(self).policy_stale_reduceonly_total == (if result.policy_stale_this_tick {
                crate::metrics::bumped(old(self).policy_stale_reduceonly_total)
            } else {
                old(self).policy_stale_reduceonly_total
            }),
    {
        let capital = compute_capital_axis(inputs);
        let market = compute_market_axis(inputs);
        let system = compute_system_axis(inputs, config);
        let trading_mode = resolve_trading_mode(capital, market, system);
        let mode_reasons = collect_mode_reasons(trading_mode, inputs, config);
        let stale_listed = contains_reason(&mode_reasons, ModeReasonCode::ReduceOnlyPolicyStale);
        proof {
            lemma_policy_stale_listed(trading_mode, *inputs, *config);
        }
        let policy_stale_this_tick = trading_mode == PolicyTradingMode::ReduceOnly && stale_listed;
        if policy_stale_this_tick {
            self.policy_stale_reduceonly_total = crate::metrics::bump_count(self.policy_stale_reduceonly_total);
        }
        PolicyGuardResult {
            trading_mode,
            mode_reasons,
            capital_axis: capital,
            market_axis: market,
            system_axis: system,
            policy_age_sec: inputs.policy_age_sec,
            policy_stale_this_tick,
        }
    }
}

impl Default for AxisResolver {
    fn default() -> (r: Self)
        ensures
            r.policy_stale_reduceonly_total == 0,
    {
        Self::new()
    }
}

proof fn lemma_policy_stale_listed(mode: PolicyTradingMode, i: PolicyGuardInputs, c: PolicyGuardConfig)
    ensures
        mode == PolicyTradingMode::ReduceOnly ==> (mode_reasons_spec(mode, i, c).contains(
            ModeReasonCode::ReduceOnlyPolicyStale,
        ) <==> i.policy_age_sec > c.max_policy_age_sec),
{
    if mode == PolicyTradingMode::ReduceOnly {
        let s = reduceonly_reasons_spec(i, c);
        if i.policy_age_sec > c.max_policy_age_sec {
            lemma_reduceonly_reasons_ordered(i, c);
            let k = choose|k: int| 0 <= k < s.len() && s[k] == ModeReasonCode::ReduceOnlyPolicyStale;
            assert(s.contains(ModeReasonCode::ReduceOnlyPolicyStale));
        } else {
            lemma_reduceonly_reasons_ordered(i, c);
        }
    }
}

// ─── Laws of the reason list ──────────────────────────────────────────────────

/// Reason codes in strictly increasing canonical order (hence without duplicates).
pub open spec fn strictly_ordered(s: Seq<ModeReasonCode>) -> bool {
    forall|a: int, b: int| 0 <= a < b < s.len() ==> reason_index(s[a]) < reason_index(s[b])
}

/// Every element's index lies in `[lo, hi)`.
pub open spec fn indices_within(s: Seq<ModeReasonCode>, lo: int, hi: int) -> bool {
    forall|a: int| 0 <= a < s.len() ==> lo <= reason_index(#[trigger] s[a]) < hi
}

proof fn lemma_push_if_ordered(s: Seq<ModeReasonCode>, cond: bool, r: ModeReasonCode, lo: int)
    requires
        strictly_ordered(s),
        indices_within(s, lo, reason_index(r) as int),
        lo <= reason_index(r),
    ensures
        strictly_ordered(push_if(s, cond, r)),
        indices_within(push_if(s, cond, r), lo, reason_index(r) + 1),
        push_if(s, cond, r).len() == s.len() + (if cond { 1int } else { 0int }),
        cond ==> push_if(s, cond, r)[s.len() as int] == r,
        forall|k: int| 0 <= k < s.len() ==> push_if(s, cond, r)[k] == s[k],
{
    reveal(push_if);
}

/// Some element of `s` has canonical index `v`.
pub open spec fn has_index(s: Seq<ModeReasonCode>, v: int) -> bool {
    exists|k: int| 0 <= k < s.len() && reason_index(s[k]) == v
}

proof fn lemma_push_if_has_index(s: Seq<ModeReasonCode>, cond: bool, r: ModeReasonCode, v: int)
    ensures
        has_index(push_if(s, cond, r), v) <==> (has_index(s, v) || (cond && reason_index(r) == v)),
{
    reveal(push_if);
    let t = push_if(s, cond, r);
    if has_index(s, v) {
        let k = choose|k: int| 0 <= k < s.len() && reason_index(s[k]) == v;
        assert(t[k] == s[k]);
    }
    if cond && reason_index(r) == v {
        assert(t[s.len() as int] == r);
    }
    if has_index(t, v) {
        let k = choose|k: int| 0 <= k < t.len() && reason_index(t[k]) == v;
        if k < s.len() {
            assert(s[k] == t[k]);
        }
    }
}

proof fn lemma_contains_iff_has_index(s: Seq<ModeReasonCode>, r: ModeReasonCode)
    ensures
        s.contains(r) <==> has_index(s, reason_index(r) as int),
{
    if has_index(s, reason_index(r) as int) {
        let k = choose|k: int| 0 <= k < s.len() && reason_index(s[k]) == reason_index(r);
        assert(s[k] == r);
    }
}

proof fn lemma_kill_reasons_ordered(i: PolicyGuardInputs, c: PolicyGuardConfig)
    ensures
        strictly_ordered(kill_reasons_spec(i, c)),
        indices_within(kill_reasons_spec(i, c), 0, 6),
        kill_reasons_spec(i, c).len() > 0 <==> (watchdog_kill_spec(i, c) || i.risk_state
            == PolicyRiskState::Kill || mm_kill_spec(i) || session_kill_spec(i, c) || disk_kill_spec(i, c)
            || i.cortex_override == CortexOverride::ForceKill || i.basis_decision
            == PolicyBasisDecision::ForceKill),
{
    let s0 = Seq::<ModeReasonCode>::empty();
    let s1 = push_if(s0, watchdog_kill_spec(i, c), ModeReasonCode::KillWatchdogHeartbeatStale);
    lemma_push_if_ordered(s0, watchdog_kill_spec(i, c), ModeReasonCode::KillWatchdogHeartbeatStale, 0);
    let s2 = push_if(s1, i.risk_state == PolicyRiskState::Kill, ModeReasonCode::KillRiskstateKill);
    lemma_push_if_ordered(s1, i.risk_state == PolicyRiskState::Kill, ModeReasonCode::KillRiskstateKill, 0);
    let s3 = push_if(s2, mm_kill_spec(i), ModeReasonCode::KillMarginMmUtilCritical);
    lemma_push_if_ordered(s2, mm_kill_spec(i), ModeReasonCode::KillMarginMmUtilCritical, 0);
    let s4 = push_if(s3, session_kill_spec(i, c), ModeReasonCode::KillRateLimitSessionTermination);
    lemma_push_if_ordered(s3, session_kill_spec(i, c), ModeReasonCode::KillRateLimitSessionTermination, 0);
    let s5 = push_if(s4, disk_kill_spec(i, c), ModeReasonCode::KillDiskWatermarkKill);
    lemma_push_if_ordered(s4, disk_kill_spec(i, c), ModeReasonCode::KillDiskWatermarkKill, 0);
    lemma_push_if_ordered(
        s5,
        i.cortex_override == CortexOverride::ForceKill || i.basis_decision
            == PolicyBasisDecision::ForceKill,
        ModeReasonCode::KillCortexForceKill,
        0,
    );
}

/// Three conditional appends of codes in increasing canonical order, none of index `v`
/// unless `v` is the middle one's.
proof fn lemma_push3(
    s: Seq<ModeReasonCode>,
    lo: int,
    v: int,
    c1: bool,
    r1: ModeReasonCode,
    c2: bool,
    r2: ModeReasonCode,
    c3: bool,
    r3: ModeReasonCode,
)
    requires
        strictly_ordered(s),
        indices_within(s, lo, reason_index(r1) as int),
        lo <= reason_index(r1) < reason_index(r2) < reason_index(r3),
    ensures
        ({
            let t = push_if(push_if(push_if(s, c1, r1), c2, r2), c3, r3);
            &&& strictly_ordered(t)
            &&& indices_within(t, lo, reason_index(r3) + 1)
            &&& t.len() == s.len() + (if c1 { 1int } else { 0int }) + (if c2 { 1int } else { 0int })
                + (if c3 { 1int } else { 0int })
            &&& (has_index(t, v) <==> (has_index(s, v) || (c1 && reason_index(r1) == v) || (c2
                && reason_index(r2) == v) || (c3 && reason_index(r3) == v)))
        }),
{
    let t1 = push_if(s, c1, r1);
    lemma_push_if_ordered(s, c1, r1, lo);
    lemma_push_if_has_index(s, c1, r1, v);
    let t2 = push_if(t1, c2, r2);
    lemma_push_if_ordered(t1, c2, r2, lo);
    lemma_push_if_has_index(t1, c2, r2, v);
    lemma_push_if_ordered(t2, c3, r3, lo);
    lemma_push_if_has_index(t2, c3, r3, v);
}

proof fn lemma_ro_chain(
    c1: bool, c2: bool, c3: bool, c4: bool, c5: bool, c6: bool, c7: bool, c8: bool,
    c9: bool, c10: bool, c11: bool, c12: bool, c13: bool, c14: bool, c15: bool,
)
    ensures
        ({
            let s = ro_chain(c1, c2, c3, c4, c5, c6, c7, c8, c9, c10, c11, c12, c13, c14, c15);
            &&& strictly_ordered(s)
            &&& indices_within(s, 6, 21)
            &&& (has_index(s, 15) <==> c10)
            &&& ((c1 || c2 || c3 || c4 || c5 || c6 || c7 || c8 || c9 || c10 || c11 || c12 || c13
                || c14 || c15) ==> s.len() > 0)
        }),
{
    let s0 = Seq::<ModeReasonCode>::empty();
    lemma_push3(s0, 6, 15, c1, ModeReasonCode::ReduceOnlyRiskstateMaintenance, c2,
        ModeReasonCode::ReduceOnlyEmergencyReduceOnlyActive, c3, ModeReasonCode::ReduceOnlyOpenPermissionLatched);
    let s3 = push_if(push_if(push_if(s0, c1, ModeReasonCode::ReduceOnlyRiskstateMaintenance), c2,
        ModeReasonCode::ReduceOnlyEmergencyReduceOnlyActive), c3, ModeReasonCode::ReduceOnlyOpenPermissionLatched);
    lemma_push3(s3, 6, 15, c4, ModeReasonCode::ReduceOnlyBunkerModeActive, c5,
        ModeReasonCode::ReduceOnlyF1CertInvalid, c6, ModeReasonCode::ReduceOnlyEvidenceChainNotGreen);
    let s6 = push_if(push_if(push_if(s3, c4, ModeReasonCode::ReduceOnlyBunkerModeActive), c5,
        ModeReasonCode::ReduceOnlyF1CertInvalid), c6, ModeReasonCode::ReduceOnlyEvidenceChainNotGreen);
    lemma_push3(s6, 6, 15, c7, ModeReasonCode::ReduceOnlyCortexForceReduceOnly, c8,
        ModeReasonCode::ReduceOnlyFeeModelHardStale, c9, ModeReasonCode::ReduceOnlyRiskstateDegraded);
    let s9 = push_if(push_if(push_if(s6, c7, ModeReasonCode::ReduceOnlyCortexForceReduceOnly), c8,
        ModeReasonCode::ReduceOnlyFeeModelHardStale), c9, ModeReasonCode::ReduceOnlyRiskstateDegraded);
    lemma_push3(s9, 6, 15, c10, ModeReasonCode::ReduceOnlyPolicyStale, c11,
        ModeReasonCode::ReduceOnlyMarginMmUtilHigh, c12, ModeReasonCode::ReduceOnlyInputMissingOrStale);
    let s12 = push_if(push_if(push_if(s9, c10, ModeReasonCode::ReduceOnlyPolicyStale), c11,
        ModeReasonCode::ReduceOnlyMarginMmUtilHigh), c12, ModeReasonCode::ReduceOnlyInputMissingOrStale);
    lemma_push3(s12, 6, 15, c13, ModeReasonCode::ReduceOnlyWatchdogUnconfirmed, c14,
        ModeReasonCode::ReduceOnlyDiskKillUnconfirmed, c15, ModeReasonCode::ReduceOnlySessionKillUnconfirmed);
}

proof fn lemma_reduceonly_reasons_ordered(i: PolicyGuardInputs, c: PolicyGuardConfig)
    ensures
        strictly_ordered(reduceonly_reasons_spec(i, c)),
        indices_within(reduceonly_reasons_spec(i, c), 6, 21),
        reduceonly_reasons_spec(i, c).contains(ModeReasonCode::ReduceOnlyPolicyStale) <==> i.policy_age_sec
            > c.max_policy_age_sec,
        (i.risk_state == PolicyRiskState::Maintenance || i.emergency_reduceonly_active
            || i.open_permission_blocked_latch || i.bunker_mode_active || i.f1_cert_status
            != F1CertStatus::Valid || evidence_not_green_spec(i) || i.cortex_override
            == CortexOverride::ForceReduceOnly || i.basis_decision == PolicyBasisDecision::ForceReduceOnly
            || fee_stale_spec(i, c) || i.risk_state == PolicyRiskState::Degraded || i.policy_age_sec
            > c.max_policy_age_sec || (mm_reduceonly_spec(i) && !mm_kill_spec(i))
            || critical_missing_spec(i, c) || watchdog_unconfirmed_spec(i, c) || disk_unconfirmed_spec(i, c)
            || session_unconfirmed_spec(i, c)) ==> reduceonly_reasons_spec(i, c).len() > 0,
{
    lemma_ro_chain(
        i.risk_state == PolicyRiskState::Maintenance,
        i.emergency_reduceonly_active,
        i.open_permission_blocked_latch,
        i.bunker_mode_active,
        i.f1_cert_status != F1CertStatus::Valid,
        evidence_not_green_spec(i),
        i.cortex_override == CortexOverride::ForceReduceOnly || i.basis_decision
            == PolicyBasisDecision::ForceReduceOnly,
        fee_stale_spec(i, c),
        i.risk_state == PolicyRiskState::Degraded,
        i.policy_age_sec > c.max_policy_age_sec,
        mm_reduceonly_spec(i) && !mm_kill_spec(i),
        critical_missing_spec(i, c),
        watchdog_unconfirmed_spec(i, c),
        disk_unconfirmed_spec(i, c),
        session_unconfirmed_spec(i, c),
    );
    lemma_contains_iff_has_index(reduceonly_reasons_spec(i, c), ModeReasonCode::ReduceOnlyPolicyStale);
}

proof fn lemma_push_if_keeps(s: Seq<ModeReasonCode>, cond: bool, r: ModeReasonCode, x: ModeReasonCode)
    ensures
        (s.contains(x) || (cond && x == r)) ==> push_if(s, cond, r).contains(x),
{
    reveal(push_if);
    if cond {
        let t = s.push(r);
        if x == r {
            assert(t[s.len() as int] == r);
        } else if s.contains(x) {
            let j = choose|j: int| 0 <= j < s.len() && s[j] == x;
            assert(t[j] == x);
        }
    }
}

/// Law (kill inputs force Kill): a risk state of Kill, a cortex or basis override of
/// ForceKill each force the Kill trading mode, whatever the other inputs, and the
/// reported reasons name the cause; a Degraded or Maintenance risk state never leaves
/// trading Active.
pub proof fn lemma_kill_inputs_force_kill(i: PolicyGuardInputs, c: PolicyGuardConfig)
    ensures
        (i.risk_state == PolicyRiskState::Kill || i.cortex_override == CortexOverride::ForceKill
            || i.basis_decision == PolicyBasisDecision::ForceKill) ==> effective_mode_spec(i, c)
            == PolicyTradingMode::Kill,
        i.risk_state == PolicyRiskState::Kill ==> mode_reasons_spec(effective_mode_spec(i, c), i, c).contains(
            ModeReasonCode::KillRiskstateKill,
        ),
        (i.cortex_override == CortexOverride::ForceKill || i.basis_decision == PolicyBasisDecision::ForceKill)
            ==> mode_reasons_spec(effective_mode_spec(i, c), i, c).contains(ModeReasonCode::KillCortexForceKill),
        (i.risk_state == PolicyRiskState::Degraded || i.risk_state == PolicyRiskState::Maintenance)
            ==> effective_mode_spec(i, c) != PolicyTradingMode::Active,
{
    let s0 = Seq::<ModeReasonCode>::empty();
    let s1 = push_if(s0, watchdog_kill_spec(i, c), ModeReasonCode::KillWatchdogHeartbeatStale);
    let s2 = push_if(s1, i.risk_state == PolicyRiskState::Kill, ModeReasonCode::KillRiskstateKill);
    let s3 = push_if(s2, mm_kill_spec(i), ModeReasonCode::KillMarginMmUtilCritical);
    let s4 = push_if(s3, session_kill_spec(i, c), ModeReasonCode::KillRateLimitSessionTermination);
    let s5 = push_if(s4, disk_kill_spec(i, c), ModeReasonCode::KillDiskWatermarkKill);
    let kc = i.cortex_override == CortexOverride::ForceKill || i.basis_decision == PolicyBasisDecision::ForceKill;
    let x = ModeReasonCode::KillRiskstateKill;
    lemma_push_if_keeps(s1, i.risk_state == PolicyRiskState::Kill, x, x);
    lemma_push_if_keeps(s2, mm_kill_spec(i), ModeReasonCode::KillMarginMmUtilCritical, x);
    lemma_push_if_keeps(s3, session_kill_spec(i, c), ModeReasonCode::KillRateLimitSessionTermination, x);
    lemma_push_if_keeps(s4, disk_kill_spec(i, c), ModeReasonCode::KillDiskWatermarkKill, x);
    lemma_push_if_keeps(s5, kc, ModeReasonCode::KillCortexForceKill, x);
    lemma_push_if_keeps(s5, kc, ModeReasonCode::KillCortexForceKill, ModeReasonCode::KillCortexForceKill);
}

/// Law (every kill condition counts): a critical margin reading, a confirmed watchdog,
/// disk or session kill each force the Kill trading mode.
pub proof fn lemma_kill_conditions_force_kill(i: PolicyGuardInputs, c: PolicyGuardConfig)
    ensures
        (mm_kill_spec(i) || watchdog_kill_spec(i, c) || disk_kill_spec(i, c) || session_kill_spec(i, c))
            ==> effective_mode_spec(i, c) == PolicyTradingMode::Kill,
{
}

/// Law (every reduce-only condition counts): bunker mode, an invalid F1 certificate, an
/// evidence chain that is not green (outside CSP), an emergency reduce-only or a latched
/// open permission, a cortex or basis override, a stale fee model, a stale policy, a
/// margin reading at the reduce-only level, or a missing or unconfirmed critical input
/// each keep trading from being Active.
pub proof fn lemma_reduceonly_conditions_block_active(i: PolicyGuardInputs, c: PolicyGuardConfig)
    ensures
        (i.bunker_mode_active || i.f1_cert_status != F1CertStatus::Valid || evidence_not_green_spec(i)
            || i.emergency_reduceonly_active || i.open_permission_blocked_latch || i.cortex_override
            != CortexOverride::NoOverride || i.basis_decision != PolicyBasisDecision::Normal
            || fee_stale_spec(i, c) || i.policy_age_sec > c.max_policy_age_sec || mm_reduceonly_spec(i)
            || critical_missing_spec(i, c) || watchdog_unconfirmed_spec(i, c) || disk_unconfirmed_spec(i, c)
            || session_unconfirmed_spec(i, c)) ==> effective_mode_spec(i, c) != PolicyTradingMode::Active,
{
}

/// Law (reason codes): the resolver reports no reason exactly when the mode is `Active`;
/// otherwise every reported reason belongs to the tier of the mode (kill-tier for `Kill`,
/// reduce-only tier for `ReduceOnly`), and the reasons come in strictly increasing canonical
/// order, so none repeats.
pub proof fn lemma_mode_reasons_well_formed(i: PolicyGuardInputs, c: PolicyGuardConfig)
    ensures
        ({
            let mode = effective_mode_spec(i, c);
            let reasons = mode_reasons_spec(mode, i, c);
            &&& (reasons.len() == 0 <==> mode == PolicyTradingMode::Active)
            &&& strictly_ordered(reasons)
            &&& (mode == PolicyTradingMode::Kill ==> forall|k: int| 0 <= k < reasons.len()
                ==> reason_is_kill_tier(#[trigger] reasons[k]))
            &&& (mode == PolicyTradingMode::ReduceOnly ==> forall|k: int| 0 <= k < reasons.len()
                ==> !reason_is_kill_tier(#[trigger] reasons[k]))
        }),
{
    lemma_kill_reasons_ordered(i, c);
    lemma_reduceonly_reasons_ordered(i, c);
    let mode = effective_mode_spec(i, c);
    let reasons = mode_reasons_spec(mode, i, c);
    if mode == PolicyTradingMode::Kill {
        assert forall|k: int| 0 <= k < reasons.len() implies reason_is_kill_tier(#[trigger] reasons[k]) by {
            assert(indices_within(kill_reasons_spec(i, c), 0, 6));
        }
    }
    if mode == PolicyTradingMode::ReduceOnly {
        assert forall|k: int| 0 <= k < reasons.len() implies !reason_is_kill_tier(#[trigger] reasons[k]) by {
            assert(indices_within(reduceonly_reasons_spec(i, c), 6, 21));
        }
    }
}

} // verus!

verus! {

// ─── Non-active OPEN cancellation ─────────────────────────────────────────────

/// One bounded batch of OPEN orders to cancel while the mode is not Active.
pub struct OpenCancellationBatch {
    /// Order ids to cancel this tick, a prefix of the outstanding OPEN ids.
    pub order_ids: Vec<String>,
    /// More OPEN orders remain after this batch.
    pub has_more: bool,
}

/// The batch of outstanding OPEN ids to cancel this tick: at most
/// `cancel_open_batch_max` of them, in the order given.
pub fn compute_cancel_batch(outstanding_open_ids: &[String], config: &PolicyGuardConfig) -> (r:
    OpenCancellationBatch)
    ensures
        r.order_ids@.len() == if outstanding_open_ids@.len() <= config.cancel_open_batch_max {
            outstanding_open_ids@.len() as int
        } else {
            config.cancel_open_batch_max as int
        },
        forall|i: int|
            0 <= i < r.order_ids@.len() ==> #[trigger] r.order_ids@[i]@ == outstanding_open_ids@[i]@,
        r.has_more == (outstanding_open_ids@.len() > config.cancel_open_batch_max),
{
    let max = config.cancel_open_batch_max as usize;
    let total = outstanding_open_ids.len();
    let batch_size = if total < max {
        total
    } else {
        max
    };
    let mut order_ids: Vec<String> = Vec::new();
    let mut i: usize = 0;
    while i < batch_size
        invariant
            batch_size <= total,
            total == outstanding_open_ids@.len(),
            i <= batch_size,
            order_ids@.len() == i,
            forall|j: int| 0 <= j < i ==> #[trigger] order_ids@[j]@ == outstanding_open_ids@[j]@,
        decreases batch_size - i,
    {
        order_ids.push(outstanding_open_ids[i].clone());
        i = i + 1;
    }
    OpenCancellationBatch { order_ids, has_more: total > max }
}

/// An intent is an OPEN (risk-increasing) unless it is explicitly reduce-only.
pub fn is_open_intent(reduce_only: Option<bool>) -> (r: bool)
    ensures
        r == (reduce_only != Some(true)),
{
    !matches!(reduce_only, Some(true))
}

} // verus!
