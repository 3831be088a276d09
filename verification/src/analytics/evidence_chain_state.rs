use vstd::prelude::*;

use crate::metrics::{bump_count, bumped};

verus! {

/// Enforcement profile: the guard is enforced unless the profile is CSP.
#[derive(Debug, Clone, Copy, PartialEq, Eq, Structural)]
pub enum EvidenceEnforcedProfile {
    Csp,
    Gop,
    Full,
}

impl EvidenceEnforcedProfile {
    pub fn is_csp(&self) -> (r: bool)
        ensures
            r == (*self == EvidenceEnforcedProfile::Csp),
    {
        matches!(self, EvidenceEnforcedProfile::Csp)
    }
}

#[derive(Debug, Clone, Copy, PartialEq, Eq, Structural)]
pub enum EvidenceChainState {
    Green,
    NotGreen,
}

#[derive(Debug, Clone, Copy, PartialEq, Eq, Structural)]
pub enum EvidenceGuardDecision {
    NotEnforced,
    Green,
    NotGreen,
}

/// Parquet queue depth as a fraction of capacity, read against the two thresholds.
#[derive(Debug, Clone, Copy, PartialEq, Eq, Structural)]
pub struct QueueDepthReading {
    /// depth_pct > parquet_queue_trip_pct (strict).
    pub above_trip: bool,
    /// depth_pct < parquet_queue_clear_pct (strict).
    pub below_clear: bool,
}

/// Inputs of one evaluation tick.
#[derive(Debug, Clone, Copy, PartialEq, Eq, Structural)]
pub struct EvidenceGuardInputs {
    pub now_ms: u64,
    pub truth_capsule_write_errors: Option<u64>,
    pub decision_snapshot_write_errors: Option<u64>,
    pub wal_write_errors: Option<u64>,
    pub parquet_queue_overflow_count: Option<u64>,
    /// Queue depth reading; `None` when depth or capacity is unknown (fail-closed).
    pub parquet_queue_depth: Option<QueueDepthReading>,
    pub counters_last_update_ts_ms: Option<u64>,
    pub enforced_profile: EvidenceEnforcedProfile,
}

/// Windows of the guard; the depth thresholds are applied when the depth reading is taken.
#[derive(Debug, Clone, Copy, PartialEq, Eq, Structural)]
pub struct EvidenceGuardConfig {
    pub evidenceguard_window_s: u64,
    pub evidenceguard_counters_max_age_ms: u64,
    pub parquet_queue_trip_window_s: u64,
    pub queue_clear_window_s: u64,
    pub evidenceguard_global_cooldown: u64,
}

impl Default for EvidenceGuardConfig {
    fn default() -> (c: Self)
        ensures
            c.evidenceguard_window_s == 60,
            c.evidenceguard_counters_max_age_ms == 60_000,
            c.parquet_queue_trip_window_s == 5,
            c.queue_clear_window_s == 120,
            c.evidenceguard_global_cooldown == 0,
    {
        Self {
            evidenceguard_window_s: 60,
            evidenceguard_counters_max_age_ms: 60_000,
            parquet_queue_trip_window_s: 5,
            queue_clear_window_s: 120,
            evidenceguard_global_cooldown: 0,
        }
    }
}

/// All windows fit in milliseconds.
pub open spec fn evidence_config_ok(c: EvidenceGuardConfig) -> bool {
    &&& c.evidenceguard_window_s <= u64::MAX / 1000
    &&& c.parquet_queue_trip_window_s <= u64::MAX / 1000
    &&& c.queue_clear_window_s <= u64::MAX / 1000
    &&& c.evidenceguard_global_cooldown <= u64::MAX / 1000
}

/// A cumulative counter: last value seen and when it last increased.
#[derive(Debug, Clone, Copy, PartialEq, Eq, Structural)]
pub struct CounterTracker {
    pub last_value: u64,
    pub last_increase_ts_ms: Option<u64>,
}

pub open spec fn age(now: u64, ts: u64) -> int {
    if now >= ts {
        now - ts
    } else {
        0
    }
}

/// Tracker after observing `v` at `now`, and whether it increased within `window_ms`.
pub open spec fn tracker_step(t: CounterTracker, v: u64, now: u64, window_ms: u64) -> (CounterTracker, bool) {
    let last_increase = if v > t.last_value { Some(now) } else { t.last_increase_ts_ms };
    (
        CounterTracker { last_value: v, last_increase_ts_ms: last_increase },
        last_increase matches Some(ts) && age(now, ts) < window_ms,
    )
}

impl CounterTracker {
    pub fn new(initial_value: u64) -> (t: Self)
        ensures
            t.last_value == initial_value,
            t.last_increase_ts_ms is None,
    {
        Self { last_value: initial_value, last_increase_ts_ms: None }
    }

    pub fn update_and_check(&mut self, new_value: u64, now_ms: u64, window_ms: u64) -> (r: bool)
        ensures
            (*final(self), r) == tracker_step(*old(self), new_value, now_ms, window_ms),
    {
        if new_value > self.last_value {
            self.last_increase_ts_ms = Some(now_ms);
            self.last_value = new_value;
        } else {
            self.last_value = new_value;
        }
        match self.last_increase_ts_ms {
            None => false,
            Some(ts) => now_ms.saturating_sub(ts) < window_ms,
        }
    }
}

/// EvidenceGuard stateful evaluator.
pub struct EvidenceGuard {
    pub truth_capsule_tracker: Option<CounterTracker>,
    pub snapshot_tracker: Option<CounterTracker>,
    pub wal_tracker: Option<CounterTracker>,
    pub parquet_overflow_tracker: Option<CounterTracker>,
    pub queue_trip_start_ms: Option<u64>,
    pub queue_tripped: bool,
    pub queue_clear_start_ms: Option<u64>,
    pub recovery_cleared_ms: Option<u64>,
    /// Observability: count of blocked OPEN intents.
    pub evidence_guard_blocked_opens_count: u64,
    /// Observability gauge: 1 = green, 0 = not green.
    pub evidence_chain_state_gauge: u64,
}

/// Tracker step for an optional tracker (created on first sight with the observed value).
pub open spec fn opt_tracker_step(t: Option<CounterTracker>, v: u64, now: u64, window_ms: u64) -> (Option<CounterTracker>, bool) {
    let base = match t {
        Some(x) => x,
        None => CounterTracker { last_value: v, last_increase_ts_ms: None },
    };
    let (n, inc) = tracker_step(base, v, now, window_ms);
    (Some(n), inc)
}

/// Queue trip/recovery state after one depth reading.
pub open spec fn queue_step(g: EvidenceGuard, q: QueueDepthReading, now: u64, c: EvidenceGuardConfig) -> EvidenceGuard {
    let trip_window_ms = c.parquet_queue_trip_window_s * 1000;
    let clear_window_ms = c.queue_clear_window_s * 1000;
    let cooldown_ms = c.evidenceguard_global_cooldown * 1000;
    let required_clear = if clear_window_ms >= cooldown_ms { clear_window_ms } else { cooldown_ms };
    if !g.queue_tripped {
        if q.above_trip {
            let start = match g.queue_trip_start_ms { Some(s) => s, None => now };
            if age(now, start) >= trip_window_ms {
                EvidenceGuard { queue_trip_start_ms: Some(start), queue_tripped: true, queue_clear_start_ms: None, ..g }
            } else {
                EvidenceGuard { queue_trip_start_ms: Some(start), ..g }
            }
        } else {
            EvidenceGuard { queue_trip_start_ms: None, ..g }
        }
    } else {
        if q.below_clear {
            let start = match g.queue_clear_start_ms { Some(s) => s, None => now };
            if age(now, start) >= required_clear {
                EvidenceGuard {
                    queue_tripped: false,
                    queue_trip_start_ms: None,
                    queue_clear_start_ms: None,
                    recovery_cleared_ms: Some(now),
                    ..g
                }
            } else {
                EvidenceGuard { queue_clear_start_ms: Some(start), ..g }
            }
        } else {
            EvidenceGuard { queue_clear_start_ms: None, ..g }
        }
    }
}

/// Evidence chain state of one tick and the guard after it.
pub open spec fn compute_state_spec(g: EvidenceGuard, i: EvidenceGuardInputs, c: EvidenceGuardConfig) -> (EvidenceChainState, EvidenceGuard) {
    let now = i.now_ms;
    let window_ms = (c.evidenceguard_window_s * 1000) as u64;
    if i.counters_last_update_ts_ms matches Some(ts) && age(now, ts) > c.evidenceguard_counters_max_age_ms {
        (EvidenceChainState::NotGreen, g)
    } else if i.truth_capsule_write_errors is None || i.decision_snapshot_write_errors is None
        || i.wal_write_errors is None || i.parquet_queue_overflow_count is None {
        (EvidenceChainState::NotGreen, g)
    } else {
        let (t1, inc1) = opt_tracker_step(g.truth_capsule_tracker, i.truth_capsule_write_errors->0, now, window_ms);
        let g1 = EvidenceGuard { truth_capsule_tracker: t1, ..g };
        if inc1 {
            (EvidenceChainState::NotGreen, g1)
        } else {
            let (t2, inc2) = opt_tracker_step(g1.snapshot_tracker, i.decision_snapshot_write_errors->0, now, window_ms);
            let g2 = EvidenceGuard { snapshot_tracker: t2, ..g1 };
            if inc2 {
                (EvidenceChainState::NotGreen, g2)
            } else {
                let (t3, inc3) = opt_tracker_step(g2.wal_tracker, i.wal_write_errors->0, now, window_ms);
                let g3 = EvidenceGuard { wal_tracker: t3, ..g2 };
                if inc3 {
                    (EvidenceChainState::NotGreen, g3)
                } else {
                    let (t4, inc4) = opt_tracker_step(g3.parquet_overflow_tracker, i.parquet_queue_overflow_count->0, now, window_ms);
                    let g4 = EvidenceGuard { parquet_overflow_tracker: t4, ..g3 };
                    if inc4 {
                        (EvidenceChainState::NotGreen, g4)
                    } else {
                        match i.parquet_queue_depth {
                            None => (EvidenceChainState::NotGreen, g4),
                            Some(q) => {
                                let g5 = queue_step(g4, q, now, c);
                                if g5.queue_tripped {
                                    (EvidenceChainState::NotGreen, g5)
                                } else {
                                    (EvidenceChainState::Green, g5)
                                }
                            },
                        }
                    }
                }
            }
        }
    }
}

fn step_tracker(t: &mut Option<CounterTracker>, v: u64, now_ms: u64, window_ms: u64) -> (inc: bool)
    ensures
        (*final(t), inc) == opt_tracker_step(*old(t), v, now_ms, window_ms),
{
    let mut tracker = match *t {
        Some(x) => x,
        None => CounterTracker::new(v),
    };
    let inc = tracker.update_and_check(v, now_ms, window_ms);
    *t = Some(tracker);
    inc
}

/// Decision and guard after one evaluation: under CSP the guard is not enforced and
/// keeps its state; otherwise the chain state is computed and the gauge follows it.
pub open spec fn evidence_step(g: EvidenceGuard, i: EvidenceGuardInputs, c: EvidenceGuardConfig) -> (
    EvidenceGuardDecision,
    EvidenceGuard,
) {
    if i.enforced_profile == EvidenceEnforcedProfile::Csp {
        (EvidenceGuardDecision::NotEnforced, g)
    } else {
        let (st, g2) = compute_state_spec(g, i, c);
        (
            if st == EvidenceChainState::Green {
                EvidenceGuardDecision::Green
            } else {
                EvidenceGuardDecision::NotGreen
            },
            EvidenceGuard {
                evidence_chain_state_gauge: if st == EvidenceChainState::Green { 1 } else { 0 },
                ..g2
            },
        )
    }
}

/// The chain state that `current_state` reports for a guard.
pub open spec fn reported_state(g: EvidenceGuard) -> EvidenceChainState {
    if g.evidence_chain_state_gauge == 1 {
        EvidenceChainState::Green
    } else {
        EvidenceChainState::NotGreen
    }
}

impl EvidenceGuard {
    pub fn new() -> (g: Self)
        ensures
            g.truth_capsule_tracker is None && g.snapshot_tracker is None && g.wal_tracker is None
                && g.parquet_overflow_tracker is None,
            g.queue_trip_start_ms is None && !g.queue_tripped && g.queue_clear_start_ms is None
                && g.recovery_cleared_ms is None,
            g.evidence_guard_blocked_opens_count == 0,
            g.evidence_chain_state_gauge == 0,
    {
        Self {
            truth_capsule_tracker: None,
            snapshot_tracker: None,
            wal_tracker: None,
            parquet_overflow_tracker: None,
            queue_trip_start_ms: None,
            queue_tripped: false,
            queue_clear_start_ms: None,
            recovery_cleared_ms: None,
            evidence_guard_blocked_opens_count: 0,
            evidence_chain_state_gauge: 0,
        }
    }

    /// Under CSP the guard is not enforced and keeps its state; otherwise it computes the chain
    /// state of this tick and sets the gauge.
    pub fn evaluate(&mut self, inputs: &EvidenceGuardInputs, config: &EvidenceGuardConfig) -> (d: EvidenceGuardDecision)
        requires
            evidence_config_ok(*config),
        ensures
            (d, *final(self)) == evidence_step(*old(self), *inputs, *config),
            inputs.enforced_profile == EvidenceEnforcedProfile::Csp ==> (d == EvidenceGuardDecision::NotEnforced
                && *final(self) == *old(self)),
            inputs.enforced_profile != EvidenceEnforcedProfile::Csp ==> ({
                let (st, g) = compute_state_spec(*old(self), *inputs, *config);
                &&& d == (if st == EvidenceChainState::Green {
                    EvidenceGuardDecision::Green
                } else {
                    EvidenceGuardDecision::NotGreen
                })
                &&& *final(self) == EvidenceGuard {
                    evidence_chain_state_gauge: if st == EvidenceChainState::Green { 1 } else { 0 },
                    ..g
                }
            }),
    {
        if inputs.enforced_profile.is_csp() {
            return EvidenceGuardDecision::NotEnforced;
        }
        let state = self.compute_state(inputs, config);
        self.evidence_chain_state_gauge = if state == EvidenceChainState::Green { 1 } else { 0 };
        match state {
            EvidenceChainState::Green => EvidenceGuardDecision::Green,
            EvidenceChainState::NotGreen => EvidenceGuardDecision::NotGreen,
        }
    }

    pub fn blocks_open(decision: EvidenceGuardDecision) -> (r: bool)
        ensures
            r == (decision == EvidenceGuardDecision::NotGreen),
    {
        decision == EvidenceGuardDecision::NotGreen
    }

    pub fn record_blocked_open(&mut self)
        ensures
            *final(self) == (EvidenceGuard {
                evidence_guard_blocked_opens_count: bumped(old(self).evidence_guard_blocked_opens_count),
                ..*old(self)
            }),
    {
        self.evidence_guard_blocked_opens_count = bump_count(self.evidence_guard_blocked_opens_count);
    }

    fn compute_state(&mut self, inputs: &EvidenceGuardInputs, config: &EvidenceGuardConfig) -> (st: EvidenceChainState)
        requires
            evidence_config_ok(*config),
        ensures
            (st, *final(self)) == compute_state_spec(*old(self), *inputs, *config),
    {
        let now_ms = inputs.now_ms;
        let window_ms = config.evidenceguard_window_s * 1_000;
        if let Some(ts) = inputs.counters_last_update_ts_ms {
            if now_ms.saturating_sub(ts) > config.evidenceguard_counters_max_age_ms {
                return EvidenceChainState::NotGreen;
            }
        }
        let tc = match inputs.truth_capsule_write_errors {
            Some(v) => v,
            None => return EvidenceChainState::NotGreen,
        };
        let ds = match inputs.decision_snapshot_write_errors {
            Some(v) => v,
            None => return EvidenceChainState::NotGreen,
        };
        let wal = match inputs.wal_write_errors {
            Some(v) => v,
            None => return EvidenceChainState::NotGreen,
        };
        let pq = match inputs.parquet_queue_overflow_count {
            Some(v) => v,
            None => return EvidenceChainState::NotGreen,
        };
        if step_tracker(&mut self.truth_capsule_tracker, tc, now_ms, window_ms) {
            return EvidenceChainState::NotGreen;
        }
        if step_tracker(&mut self.snapshot_tracker, ds, now_ms, window_ms) {
            return EvidenceChainState::NotGreen;
        }
        if step_tracker(&mut self.wal_tracker, wal, now_ms, window_ms) {
            return EvidenceChainState::NotGreen;
        }
        if step_tracker(&mut self.parquet_overflow_tracker, pq, now_ms, window_ms) {
            return EvidenceChainState::NotGreen;
        }
        let depth = match inputs.parquet_queue_depth {
            Some(q) => q,
            None => return EvidenceChainState::NotGreen,
        };
        self.update_queue_trip_state(depth, now_ms, config);
        if self.queue_tripped {
            return EvidenceChainState::NotGreen;
        }
        EvidenceChainState::Green
    }

    fn update_queue_trip_state(&mut self, q: QueueDepthReading, now_ms: u64, config: &EvidenceGuardConfig)
        requires
            evidence_config_ok(*config),
        ensures
            *final(self) == queue_step(*old(self), q, now_ms, *config),
    {
        let trip_window_ms = config.parquet_queue_trip_window_s * 1_000;
        let clear_window_ms = config.queue_clear_window_s * 1_000;
        let cooldown_ms = config.evidenceguard_global_cooldown * 1_000;
        if !self.queue_tripped {
            if q.above_trip {
                let trip_start = match self.queue_trip_start_ms {
                    Some(s) => s,
                    None => now_ms,
                };
                self.queue_trip_start_ms = Some(trip_start);
                let elapsed = now_ms.saturating_sub(trip_start);
                if elapsed >= trip_window_ms {
                    self.queue_tripped = true;
                    self.queue_clear_start_ms = None;
                }
            } else {
                self.queue_trip_start_ms = None;
            }
        } else {
            if q.below_clear {
                let clear_start = match self.queue_clear_start_ms {
                    Some(s) => s,
                    None => now_ms,
                };
                self.queue_clear_start_ms = Some(clear_start);
                let clear_elapsed = now_ms.saturating_sub(clear_start);
                let required_clear = if clear_window_ms >= cooldown_ms { clear_window_ms } else { cooldown_ms };
                if clear_elapsed >= required_clear {
                    self.queue_tripped = false;
                    self.queue_trip_start_ms = None;
                    self.queue_clear_start_ms = None;
                    self.recovery_cleared_ms = Some(now_ms);
                }
            } else {
                self.queue_clear_start_ms = None;
            }
        }
    }

    pub fn current_state(&self) -> (s: EvidenceChainState)
        ensures
            s == reported_state(*self),
    {
        if self.evidence_chain_state_gauge == 1 {
            EvidenceChainState::Green
        } else {
            EvidenceChainState::NotGreen
        }
    }
}

impl Default for EvidenceGuard {
    fn default() -> (g: Self)
        ensures
            g.evidence_guard_blocked_opens_count == 0,
            g.evidence_chain_state_gauge == 0,
    {
        Self::new()
    }
}

/// Law (no evidence, no opens): a tick is GREEN only when every required counter was present,
/// the counters were fresh, a depth reading was present and the queue is not tripped.
pub proof fn lemma_green_requires_evidence(g: EvidenceGuard, i: EvidenceGuardInputs, c: EvidenceGuardConfig)
    requires
        compute_state_spec(g, i, c).0 == EvidenceChainState::Green,
    ensures
        i.truth_capsule_write_errors is Some,
        i.decision_snapshot_write_errors is Some,
        i.wal_write_errors is Some,
        i.parquet_queue_overflow_count is Some,
        i.parquet_queue_depth is Some,
        !(i.counters_last_update_ts_ms matches Some(ts) && age(i.now_ms, ts) > c.evidenceguard_counters_max_age_ms),
        !compute_state_spec(g, i, c).1.queue_tripped,
{
}

/// A counter that increases on this tick always blocks (the window is positive).
pub proof fn lemma_counter_increase_blocks(t: CounterTracker, v: u64, now: u64, window_ms: u64)
    requires
        v > t.last_value,
        window_ms > 0,
    ensures
        tracker_step(t, v, now, window_ms).1,
{
}

/// One evaluation given to the guard: its inputs and configuration.
pub type EvidenceTick = (EvidenceGuardInputs, EvidenceGuardConfig);

/// The guard after a sequence of evaluations, starting from `g`.
pub open spec fn evidence_run(g: EvidenceGuard, ticks: Seq<EvidenceTick>) -> EvidenceGuard
    decreases ticks.len(),
{
    if ticks.len() == 0 {
        g
    } else {
        evidence_step(evidence_run(g, ticks.drop_last()), ticks.last().0, ticks.last().1).1
    }
}

/// The decision of the most recent evaluation in the sequence that was enforced (did
/// not return NotEnforced), if any.
pub open spec fn last_enforced(g: EvidenceGuard, ticks: Seq<EvidenceTick>) -> Option<EvidenceGuardDecision>
    decreases ticks.len(),
{
    if ticks.len() == 0 {
        None
    } else {
        let d = evidence_step(evidence_run(g, ticks.drop_last()), ticks.last().0, ticks.last().1).0;
        if d != EvidenceGuardDecision::NotEnforced {
            Some(d)
        } else {
            last_enforced(g, ticks.drop_last())
        }
    }
}

/// Law (current state): after any sequence of evaluations the reported chain state is
/// Green exactly when the most recent enforced evaluation returned Green; with no
/// enforced evaluation (CSP ticks leave the guard unchanged) it is what it was before,
/// which for a new guard is NotGreen.
pub proof fn lemma_current_state_follows_last_enforced(g: EvidenceGuard, ticks: Seq<EvidenceTick>)
    ensures
        reported_state(evidence_run(g, ticks)) == match last_enforced(g, ticks) {
            Some(d) => if d == EvidenceGuardDecision::Green {
                EvidenceChainState::Green
            } else {
                EvidenceChainState::NotGreen
            },
            None => reported_state(g),
        },
    decreases ticks.len(),
{
    if ticks.len() > 0 {
        lemma_current_state_follows_last_enforced(g, ticks.drop_last());
    }
}

/// Whether a tracked counter shows a write error: its value rose above the last one
/// seen, or its last rise lies within the window.
pub open spec fn counter_shows_error(t: Option<CounterTracker>, v: u64, now: u64, window_ms: int) -> bool {
    t matches Some(t) && (v > t.last_value || (t.last_increase_ts_ms matches Some(ts) && now >= ts
        && now - ts < window_ms))
}

/// Law (every error counter blocks): with a positive window, a Green chain state means
/// that none of the four tracked counters (truth capsule, decision snapshot, WAL,
/// parquet overflow) rose on this tick or within the window before it.
pub proof fn lemma_green_means_no_counter_error(g: EvidenceGuard, i: EvidenceGuardInputs, c: EvidenceGuardConfig)
    requires
        evidence_config_ok(c),
        c.evidenceguard_window_s > 0,
        compute_state_spec(g, i, c).0 == EvidenceChainState::Green,
    ensures
        ({
            let w = c.evidenceguard_window_s * 1000;
            &&& !counter_shows_error(g.truth_capsule_tracker, i.truth_capsule_write_errors->0, i.now_ms, w)
            &&& !counter_shows_error(g.snapshot_tracker, i.decision_snapshot_write_errors->0, i.now_ms, w)
            &&& !counter_shows_error(g.wal_tracker, i.wal_write_errors->0, i.now_ms, w)
            &&& !counter_shows_error(
                g.parquet_overflow_tracker,
                i.parquet_queue_overflow_count->0,
                i.now_ms,
                w,
            )
        }),
{
    assert(c.evidenceguard_window_s * 1000 <= u64::MAX) by (nonlinear_arith)
        requires
            c.evidenceguard_window_s <= u64::MAX / 1000,
    ;
}

} // verus!
