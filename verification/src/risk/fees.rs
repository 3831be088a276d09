//! Fee-model freshness: when to poll the venue for fees again, how stale the cached
//! fee model is, and the counter of failed refreshes.

use vstd::prelude::*;

use crate::metrics::{bump_count, bumped};
use crate::risk::state::RiskState;

verus! {

pub const FEE_CACHE_SOFT_S_DEFAULT: u64 = 300;

pub const FEE_CACHE_HARD_S_DEFAULT: u64 = 900;

pub const FEE_MODEL_POLL_INTERVAL_S: u64 = 60;

pub const FEE_MODEL_POLL_INTERVAL_MS: u64 = 60_000;

pub struct FeeModelRefreshMetrics {
    pub refresh_fail_total: u64,
}

impl FeeModelRefreshMetrics {
    pub fn new() -> (m: Self)
        ensures
            m.refresh_fail_total == 0,
    {
        Self { refresh_fail_total: 0 }
    }

    pub fn fee_model_refresh_fail_total(&self) -> (n: u64)
        ensures
            n == self.refresh_fail_total,
    {
        self.refresh_fail_total
    }

    pub fn record_fee_model_refresh_fail(&mut self)
        ensures
            final(self).refresh_fail_total == bumped(old(self).refresh_fail_total),
    {
        self.refresh_fail_total = bump_count(self.refresh_fail_total);
    }
}

/// When the fee model was last polled, and how often it is polled.
#[derive(Debug, Clone, Copy, PartialEq, Eq, Structural)]
pub struct FeePollSchedule {
    pub last_poll_ms: Option<u64>,
    pub poll_interval_ms: u64,
}

/// A poll is due when none was made yet, when the clock stands before the last poll,
/// or when a full interval has passed since it.
pub open spec fn poll_due(last_poll_ms: Option<u64>, poll_interval_ms: u64, now_ms: u64) -> bool {
    match last_poll_ms {
        None => true,
        Some(last) => now_ms < last || now_ms - last >= poll_interval_ms,
    }
}

impl FeePollSchedule {
    /// A schedule with the default interval and no poll made yet.
    pub fn new() -> (s: Self)
        ensures
            s.last_poll_ms is None,
            s.poll_interval_ms == FEE_MODEL_POLL_INTERVAL_MS,
    {
        Self::with_poll_interval_ms(FEE_MODEL_POLL_INTERVAL_MS)
    }

    pub fn with_poll_interval_ms(poll_interval_ms: u64) -> (s: Self)
        ensures
            s.last_poll_ms is None,
            s.poll_interval_ms == poll_interval_ms,
    {
        Self { last_poll_ms: None, poll_interval_ms }
    }

    pub fn poll_interval_ms(&self) -> (n: u64)
        ensures
            n == self.poll_interval_ms,
    {
        self.poll_interval_ms
    }

    pub fn should_poll(&self, now_ms: u64) -> (r: bool)
        ensures
            r == poll_due(self.last_poll_ms, self.poll_interval_ms, now_ms),
    {
        match self.last_poll_ms {
            None => true,
            Some(last_poll) => {
                if now_ms >= last_poll {
                    now_ms - last_poll >= self.poll_interval_ms
                } else {
                    true
                }
            },
        }
    }

    /// Notes a poll made at `now_ms`.
    pub fn record_poll(&mut self, now_ms: u64)
        ensures
            final(self).last_poll_ms == Some(now_ms),
            final(self).poll_interval_ms == old(self).poll_interval_ms,
    {
        self.last_poll_ms = Some(now_ms);
    }
}

impl Default for FeePollSchedule {
    fn default() -> (s: Self)
        ensures
            s.last_poll_ms is None,
            s.poll_interval_ms == FEE_MODEL_POLL_INTERVAL_MS,
    {
        Self::new()
    }
}

/// Right after a poll, the next one is due exactly when a full interval has passed.
pub proof fn lemma_poll_waits_one_interval(poll_interval_ms: u64, polled_at: u64, now_ms: u64)
    requires
        polled_at <= now_ms,
    ensures
        poll_due(Some(polled_at), poll_interval_ms, now_ms) <==> now_ms - polled_at
            >= poll_interval_ms,
{
}

/// How stale the cached fee model is: hard beyond `fee_cache_hard_s` seconds (and
/// always when there is no cache time or the clock stands before it), soft beyond
/// `fee_cache_soft_s` seconds where not hard.
#[derive(Debug, Clone, Copy, PartialEq, Eq, Structural)]
pub struct FeeStaleness {
    pub soft_stale: bool,
    pub hard_stale: bool,
    pub risk_state: RiskState,
}

/// The cache age in milliseconds, where there is one.
pub open spec fn cache_age_ms(now_ms: u64, cached_at_ms: Option<u64>) -> Option<int> {
    match cached_at_ms {
        Some(at) if now_ms >= at => Some(now_ms - at),
        _ => None,
    }
}

pub open spec fn hard_stale_spec(now_ms: u64, cached_at_ms: Option<u64>, hard_s: u64) -> bool {
    match cache_age_ms(now_ms, cached_at_ms) {
        Some(age) => age > 1000 * hard_s,
        None => true,
    }
}

pub open spec fn soft_stale_spec(
    now_ms: u64,
    cached_at_ms: Option<u64>,
    soft_s: u64,
    hard_s: u64,
) -> bool {
    !hard_stale_spec(now_ms, cached_at_ms, hard_s) && match cache_age_ms(now_ms, cached_at_ms) {
        Some(age) => age > 1000 * soft_s,
        None => false,
    }
}

/// `age_ms` exceeds `limit_s` seconds.
fn exceeds_seconds(age_ms: u64, limit_s: u64) -> (r: bool)
    ensures
        r == (age_ms > 1000 * limit_s),
{
    let whole = age_ms / 1000;
    if whole != limit_s {
        whole > limit_s
    } else {
        age_ms % 1000 != 0
    }
}

pub fn classify_fee_staleness(
    now_ms: u64,
    cached_at_ms: Option<u64>,
    fee_cache_soft_s: u64,
    fee_cache_hard_s: u64,
) -> (r: FeeStaleness)
    ensures
        r.hard_stale == hard_stale_spec(now_ms, cached_at_ms, fee_cache_hard_s),
        r.soft_stale == soft_stale_spec(now_ms, cached_at_ms, fee_cache_soft_s, fee_cache_hard_s),
        r.risk_state == (if r.hard_stale {
            RiskState::Degraded
        } else {
            RiskState::Healthy
        }),
{
    let (hard_stale, soft_stale) = match cached_at_ms {
        Some(at) => {
            if now_ms >= at {
                let age = now_ms - at;
                let hard = exceeds_seconds(age, fee_cache_hard_s);
                (hard, !hard && exceeds_seconds(age, fee_cache_soft_s))
            } else {
                (true, false)
            }
        },
        None => (true, false),
    };
    let risk_state = if hard_stale {
        RiskState::Degraded
    } else {
        RiskState::Healthy
    };
    FeeStaleness { soft_stale, hard_stale, risk_state }
}

/// Soft and hard staleness never hold together, and only hard staleness degrades.
pub proof fn lemma_soft_and_hard_exclusive(
    now_ms: u64,
    cached_at_ms: Option<u64>,
    soft_s: u64,
    hard_s: u64,
)
    ensures
        !(soft_stale_spec(now_ms, cached_at_ms, soft_s, hard_s) && hard_stale_spec(
            now_ms,
            cached_at_ms,
            hard_s,
        )),
{
}

} // verus!
