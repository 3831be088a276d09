use vstd::prelude::*;

use crate::metrics::{bump_count, bumped};
use crate::risk::state::{RiskState, TradingMode};

verus! {

/// Configuration for the exchange health monitor.
#[derive(Debug, Clone, Copy, PartialEq, Eq, Structural)]
pub struct ExchangeHealthConfig {
    /// Max staleness before fail-closed (seconds).
    pub exchange_health_stale_s: u64,
    /// Block opens when maintenance starts within this many seconds.
    pub maintenance_lookahead_s: u64,
}

impl Default for ExchangeHealthConfig {
    fn default() -> (c: Self)
        ensures
            c.exchange_health_stale_s == 180,
            c.maintenance_lookahead_s == 3600,
    {
        Self { exchange_health_stale_s: 180, maintenance_lookahead_s: 3600 }
    }
}

/// One announcement; `maintenance_start_ms` is set for maintenance announcements.
#[derive(Debug, Clone, Copy, PartialEq, Eq, Structural)]
pub struct AnnouncementEntry {
    pub maintenance_start_ms: Option<u64>,
}

/// Input of one evaluation tick.
#[derive(Debug, Clone)]
pub struct ExchangeHealthInput {
    /// Parsed announcements; `None` if the endpoint was unreachable or answered garbage.
    pub announcements: Option<Vec<AnnouncementEntry>>,
    /// Time (ms) of the last successful poll.
    pub last_successful_poll_ms: Option<u64>,
}

#[derive(Debug, Clone, Copy, PartialEq, Eq, Structural)]
pub enum ExchangeHealthDecision {
    Normal,
    MaintenanceImminent,
    ForceReduceOnly,
}

impl ExchangeHealthDecision {
    pub fn risk_state(self) -> (r: Option<RiskState>)
        ensures
            r == (if self == ExchangeHealthDecision::MaintenanceImminent {
                Some(RiskState::Maintenance)
            } else {
                None
            }),
    {
        match self {
            ExchangeHealthDecision::Normal => None,
            ExchangeHealthDecision::MaintenanceImminent => Some(RiskState::Maintenance),
            ExchangeHealthDecision::ForceReduceOnly => None,
        }
    }

    pub fn forces_reduce_only(self) -> (r: bool)
        ensures
            r == (self != ExchangeHealthDecision::Normal),
    {
        matches!(
            self,
            ExchangeHealthDecision::MaintenanceImminent | ExchangeHealthDecision::ForceReduceOnly
        )
    }

    pub fn trading_mode(self) -> (m: TradingMode)
        ensures
            m == (if self == ExchangeHealthDecision::Normal {
                TradingMode::Active
            } else {
                TradingMode::ReduceOnly
            }),
    {
        if self.forces_reduce_only() {
            TradingMode::ReduceOnly
        } else {
            TradingMode::Active
        }
    }
}

/// Missing poll time, or the last poll is at least `stale_s` seconds old.
pub open spec fn poll_stale(last_poll_ms: Option<u64>, now_ms: u64, stale_s: u64) -> bool {
    match last_poll_ms {
        None => true,
        Some(ts) => (if now_ms >= ts { now_ms - ts } else { 0 }) >= stale_s * 1000,
    }
}

/// A maintenance window has started or starts within the lookahead (`lookahead_s`
/// seconds, counted in milliseconds).
pub open spec fn entry_imminent(entry: AnnouncementEntry, now_ms: u64, lookahead_s: u64) -> bool {
    entry.maintenance_start_ms matches Some(start) && (start <= now_ms || start - now_ms <= 1000
        * lookahead_s)
}

/// `ms` milliseconds are at most `limit_s` seconds.
fn within_seconds(ms: u64, limit_s: u64) -> (r: bool)
    ensures
        r == (ms <= 1000 * limit_s),
{
    let whole = ms / 1000;
    if whole != limit_s {
        whole < limit_s
    } else {
        ms % 1000 == 0
    }
}

/// Some announcement in the list is imminent.
pub open spec fn any_imminent(list: Seq<AnnouncementEntry>, now_ms: u64, lookahead_s: u64) -> bool {
    exists|k: int| 0 <= k < list.len() && entry_imminent(#[trigger] list[k], now_ms, lookahead_s)
}

pub open spec fn health_decision_spec(
    announcements: Option<Seq<AnnouncementEntry>>,
    last_poll_ms: Option<u64>,
    now_ms: u64,
    config: ExchangeHealthConfig,
) -> ExchangeHealthDecision {
    if poll_stale(last_poll_ms, now_ms, config.exchange_health_stale_s) {
        ExchangeHealthDecision::ForceReduceOnly
    } else if announcements matches Some(list) && any_imminent(list, now_ms, config.maintenance_lookahead_s) {
        ExchangeHealthDecision::MaintenanceImminent
    } else {
        ExchangeHealthDecision::Normal
    }
}

pub open spec fn announcements_view(input: ExchangeHealthInput) -> Option<Seq<AnnouncementEntry>> {
    match input.announcements {
        Some(v) => Some(v@),
        None => None,
    }
}

fn is_stale(last_poll_ms: Option<u64>, now_ms: u64, stale_s: u64) -> (r: bool)
    requires
        stale_s <= u64::MAX / 1000,
    ensures
        r == poll_stale(last_poll_ms, now_ms, stale_s),
{
    match last_poll_ms {
        None => true,
        Some(ts) => now_ms.saturating_sub(ts) >= stale_s * 1_000,
    }
}

/// Stateful evaluator; counts its evaluations.
pub struct ExchangeHealthMonitor {
    status_count: u64,
}

impl ExchangeHealthMonitor {
    pub closed spec fn evaluations(&self) -> u64 {
        self.status_count
    }

    pub fn new() -> (m: Self)
        ensures
            m.evaluations() == 0,
    {
        Self { status_count: 0 }
    }

    /// Stale or unreachable announcements force ReduceOnly (fail-closed); otherwise a maintenance
    /// window that has started or is within the lookahead gives `MaintenanceImminent`.
    #[verifier::loop_isolation(false)]
    pub fn evaluate(&mut self, input: &ExchangeHealthInput, now_ms: u64, config: ExchangeHealthConfig) -> (d: ExchangeHealthDecision)
        requires
            config.exchange_health_stale_s <= u64::MAX / 1000,
        ensures
            d == health_decision_spec(announcements_view(*input), input.last_successful_poll_ms, now_ms, config),
            final(self).evaluations() == bumped(old(self).evaluations()),
    {
        self.status_count = bump_count(self.status_count);
        let announcements = match &input.announcements {
            Some(list) => list,
            None => {
                return self.check_staleness(input, now_ms, config);
            },
        };
        assert(announcements_view(*input) == Some(announcements@));
        if is_stale(input.last_successful_poll_ms, now_ms, config.exchange_health_stale_s) {
            return ExchangeHealthDecision::ForceReduceOnly;
        }
        let n = announcements.len();
        let mut i: usize = 0;
        while i < n
            invariant
                n == announcements@.len(),
                i <= n,
                forall|k: int| 0 <= k < i ==> !entry_imminent(#[trigger] announcements@[k], now_ms, config.maintenance_lookahead_s),
            decreases n - i,
        {
            let entry = announcements[i];
            if let Some(start_ms) = entry.maintenance_start_ms {
                if start_ms > now_ms {
                    if within_seconds(start_ms - now_ms, config.maintenance_lookahead_s) {
                        assert(entry_imminent(announcements@[i as int], now_ms, config.maintenance_lookahead_s));
                        assert(any_imminent(announcements@, now_ms, config.maintenance_lookahead_s));
                        return ExchangeHealthDecision::MaintenanceImminent;
                    }
                } else {
                    assert(entry_imminent(announcements@[i as int], now_ms, config.maintenance_lookahead_s));
                    assert(any_imminent(announcements@, now_ms, config.maintenance_lookahead_s));
                    return ExchangeHealthDecision::MaintenanceImminent;
                }
            }
            i = i + 1;
        }
        ExchangeHealthDecision::Normal
    }

    pub fn status_count(&self) -> (r: u64)
        ensures
            r == self.evaluations(),
    {
        self.status_count
    }

    fn check_staleness(&self, input: &ExchangeHealthInput, now_ms: u64, config: ExchangeHealthConfig) -> (d: ExchangeHealthDecision)
        requires
            config.exchange_health_stale_s <= u64::MAX / 1000,
        ensures
            d == (if poll_stale(input.last_successful_poll_ms, now_ms, config.exchange_health_stale_s) {
                ExchangeHealthDecision::ForceReduceOnly
            } else {
                ExchangeHealthDecision::Normal
            }),
    {
        if is_stale(input.last_successful_poll_ms, now_ms, config.exchange_health_stale_s) {
            ExchangeHealthDecision::ForceReduceOnly
        } else {
            ExchangeHealthDecision::Normal
        }
    }
}

impl Default for ExchangeHealthMonitor {
    fn default() -> (m: Self)
        ensures
            m.evaluations() == 0,
    {
        Self::new()
    }
}

/// Law (fail-closed): a missing or stale poll always forces ReduceOnly, whatever the announcements say.
pub proof fn lemma_stale_poll_fails_closed(
    announcements: Option<Seq<AnnouncementEntry>>,
    last_poll_ms: Option<u64>,
    now_ms: u64,
    config: ExchangeHealthConfig,
)
    requires
        poll_stale(last_poll_ms, now_ms, config.exchange_health_stale_s),
    ensures
        health_decision_spec(announcements, last_poll_ms, now_ms, config)
            == ExchangeHealthDecision::ForceReduceOnly,
        health_decision_spec(announcements, last_poll_ms, now_ms, config).trading_mode_spec()
            == TradingMode::ReduceOnly,
{
}

impl ExchangeHealthDecision {
    pub open spec fn trading_mode_spec(self) -> TradingMode {
        if self == ExchangeHealthDecision::Normal {
            TradingMode::Active
        } else {
            TradingMode::ReduceOnly
        }
    }
}

} // verus!
