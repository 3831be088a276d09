//! Self-impact feedback-loop guard: keeps the bot from reacting to its own trades.
//!
//! A missing or stale public trade feed degrades the risk state and latches opens off.
//! A key whose own trading tripped the self-trade thresholds is put in cooldown and
//! its opens rejected until the cooldown ends. The thresholds compare notional amounts
//! in floating point where the trade aggregates are kept; this guard receives whether
//! they tripped.

use vstd::prelude::*;

use crate::metrics::{bump_count, bumped};
use crate::risk::churn_breaker::{
    ChurnKey, ChurnKeyView, Keyed, find_key, key_view, keys_unique, lemma_lookup_absent,
    lemma_lookup_found, lemma_lookup_update, lemma_push_fresh, lookup, prune_expired, elapsed,
};
use crate::risk::state::RiskState;
use crate::text::{decimal, push_decimal};

verus! {

/// Identity of a strategy structure that the guard tracks.
#[derive(Debug, Clone, PartialEq, Eq, Hash)]
pub struct SelfImpactKey {
    pub strategy_id: String,
    pub structure_fingerprint: String,
}

pub open spec fn impact_key_view(k: SelfImpactKey) -> ChurnKeyView {
    (k.strategy_id@, k.structure_fingerprint@)
}

fn store_key(k: &SelfImpactKey) -> (r: ChurnKey)
    ensures
        key_view(r) == impact_key_view(*k),
{
    ChurnKey { strategy_id: k.strategy_id.clone(), structure_fingerprint: k.structure_fingerprint.clone() }
}

/// The guard's time parameters.
#[derive(Debug, Clone, Copy)]
pub struct SelfImpactTiming {
    /// The public trade feed is stale past this age.
    pub public_trade_feed_max_age_ms: u64,
    /// Window over which the trade aggregates are taken.
    pub feedback_loop_window_s: u64,
    /// Cooldown after a trip.
    pub feedback_loop_cooldown_s: u64,
}

impl Default for SelfImpactTiming {
    fn default() -> (t: Self)
        ensures
            t.public_trade_feed_max_age_ms == 5000,
            t.feedback_loop_window_s == 10,
            t.feedback_loop_cooldown_s == 60,
    {
        Self { public_trade_feed_max_age_ms: 5000, feedback_loop_window_s: 10, feedback_loop_cooldown_s: 60 }
    }
}

#[derive(Debug, Clone, Copy, PartialEq, Eq, Structural)]
pub enum LatchReason {
    WsTradesGapReconcileRequired,
}

#[derive(Debug, Clone, PartialEq)]
pub struct SelfImpactEvaluation {
    pub allowed: bool,
    pub latch_reason: Option<LatchReason>,
    pub reject_reason: Option<String>,
    pub risk_state: RiskState,
}

/// The public trade feed is missing or older than `max_age_ms`.
pub open spec fn feed_stale(last_update_ms: Option<u64>, now_ms: u64, max_age_ms: u64) -> bool {
    match last_update_ms {
        None => true,
        Some(t) => elapsed(now_ms, t) > max_age_ms,
    }
}

/// A cooldown end still in force at `now`.
pub open spec fn active_until(until: Option<u64>, now: u64) -> Option<u64> {
    match until {
        Some(u) => if now < u {
            Some(u)
        } else {
            None
        },
        None => None,
    }
}

/// The rejection message while a key is in cooldown.
pub open spec fn cooldown_reason(remaining_ms: int) -> Seq<char> {
    "FeedbackLoopGuardActive: cooldown active, "@ + decimal((remaining_ms / 1000) as nat)
        + "s remaining"@
}

/// The self-impact guard: cooldowns by key, and the number of trips.
pub struct SelfImpactGuard {
    cooldowns: Vec<Keyed<u64>>,
    trip_counter: u64,
}

impl SelfImpactGuard {
    pub closed spec fn wf(&self) -> bool {
        keys_unique(self.cooldowns@)
    }

    /// End of a key's cooldown (monotonic ms), where it has one.
    pub closed spec fn cooldown_until(&self, kv: ChurnKeyView) -> Option<u64> {
        lookup(self.cooldowns@, kv)
    }

    pub closed spec fn trips(&self) -> u64 {
        self.trip_counter
    }

    pub fn new() -> (g: Self)
        ensures
            g.wf(),
            g.trips() == 0,
            forall|kv: ChurnKeyView| g.cooldown_until(kv) is None,
    {
        Self { cooldowns: Vec::new(), trip_counter: 0 }
    }

    /// Evaluates an OPEN of `key`. `trip` says whether the key's trade aggregates reach
    /// the self-trade thresholds; `now_ms` is wall-clock time and `now_mono_ms`
    /// monotonic time, by which cooldowns run. Expired cooldowns are dropped first.
    pub fn evaluate_open(
        &mut self,
        key: &SelfImpactKey,
        public_trades_last_update_ts_ms: Option<u64>,
        trip: bool,
        now_ms: u64,
        now_mono_ms: u64,
        timing: &SelfImpactTiming,
    ) -> (e: SelfImpactEvaluation)
        requires
            old(self).wf(),
            timing.feedback_loop_cooldown_s <= (u64::MAX - now_mono_ms) / 1000,
        ensures
            final(self).wf(),
            forall|kv: ChurnKeyView|
                kv != impact_key_view(*key) ==> #[trigger] final(self).cooldown_until(kv)
                    == active_until(old(self).cooldown_until(kv), now_mono_ms),
            ({
                let kv = impact_key_view(*key);
                let active = active_until(old(self).cooldown_until(kv), now_mono_ms);
                if feed_stale(
                    public_trades_last_update_ts_ms,
                    now_ms,
                    timing.public_trade_feed_max_age_ms,
                ) {
                    &&& !e.allowed
                    &&& e.latch_reason == Some(LatchReason::WsTradesGapReconcileRequired)
                    &&& e.reject_reason is None
                    &&& e.risk_state == RiskState::Degraded
                    &&& final(self).cooldown_until(kv) == active
                    &&& final(self).trips() == old(self).trips()
                } else if active is Some {
                    &&& !e.allowed
                    &&& e.latch_reason is None
                    &&& e.reject_reason matches Some(r) && r@ == cooldown_reason(
                        active->0 - now_mono_ms,
                    )
                    &&& e.risk_state == RiskState::Healthy
                    &&& final(self).cooldown_until(kv) == active
                    &&& final(self).trips() == old(self).trips()
                } else if trip {
                    &&& !e.allowed
                    &&& e.latch_reason is None
                    &&& e.reject_reason matches Some(r) && r@ == "FeedbackLoopGuardActive"@
                    &&& e.risk_state == RiskState::Healthy
                    &&& final(self).cooldown_until(kv) == Some(
                        (now_mono_ms + timing.feedback_loop_cooldown_s * 1000) as u64,
                    )
                    &&& final(self).trips() == bumped(old(self).trips())
                } else {
                    &&& e.allowed
                    &&& e.latch_reason is None
                    &&& e.reject_reason is None
                    &&& e.risk_state == RiskState::Healthy
                    &&& final(self).cooldown_until(kv) is None
                    &&& final(self).trips() == old(self).trips()
                }
            }),
    {
        let ghost kv = impact_key_view(*key);
        let kept = prune_expired(&self.cooldowns, now_mono_ms);
        self.cooldowns = kept;
        let stale = match public_trades_last_update_ts_ms {
            None => true,
            Some(t) => now_ms.saturating_sub(t) > timing.public_trade_feed_max_age_ms,
        };
        if stale {
            return SelfImpactEvaluation {
                allowed: false,
                latch_reason: Some(LatchReason::WsTradesGapReconcileRequired),
                reject_reason: None,
                risk_state: RiskState::Degraded,
            };
        }
        let skey = store_key(key);
        match find_key(&self.cooldowns, &skey) {
            Some(j) => {
                proof {
                    lemma_lookup_found(self.cooldowns@, j as int, kv);
                }
                let until = self.cooldowns[j].value;
                let mut reason = String::from_str("FeedbackLoopGuardActive: cooldown active, ");
                push_decimal(&mut reason, (until - now_mono_ms) / 1000);
                reason.append("s remaining");
                SelfImpactEvaluation {
                    allowed: false,
                    latch_reason: None,
                    reject_reason: Some(reason),
                    risk_state: RiskState::Healthy,
                }
            },
            None => {
                proof {
                    lemma_lookup_absent(self.cooldowns@, kv);
                }
                if trip {
                    let until = now_mono_ms + timing.feedback_loop_cooldown_s * 1000;
                    let ghost old_cd = self.cooldowns@;
                    let entry = Keyed { key: skey, value: until };
                    proof {
                        lemma_push_fresh(old_cd, entry);
                    }
                    self.cooldowns.push(entry);
                    self.trip_counter = bump_count(self.trip_counter);
                    SelfImpactEvaluation {
                        allowed: false,
                        latch_reason: None,
                        reject_reason: Some(String::from_str("FeedbackLoopGuardActive")),
                        risk_state: RiskState::Healthy,
                    }
                } else {
                    SelfImpactEvaluation {
                        allowed: true,
                        latch_reason: None,
                        reject_reason: None,
                        risk_state: RiskState::Healthy,
                    }
                }
            },
        }
    }

    /// Number of trips so far.
    pub fn trip_count(&self) -> (n: u64)
        ensures
            n == self.trips(),
    {
        self.trip_counter
    }
}

impl Default for SelfImpactGuard {
    fn default() -> (g: Self)
        ensures
            g.wf(),
            g.trips() == 0,
            forall|kv: ChurnKeyView| g.cooldown_until(kv) is None,
    {
        Self::new()
    }
}

} // verus!
