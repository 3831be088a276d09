use vstd::prelude::*;

use crate::metrics::{bump_count, bumped, counted, lemma_counted_step, lemma_counted_zero};

verus! {

/// Windows and cooldown of the basis monitor; the basis thresholds themselves (bps) and the
/// price freshness are applied when the reading is taken.
#[derive(Debug, Clone, Copy, PartialEq, Eq, Structural)]
pub struct BasisWindowConfig {
    pub basis_reduceonly_window_s: u64,
    pub basis_reduceonly_cooldown_s: u64,
    pub basis_kill_window_s: u64,
}

impl Default for BasisWindowConfig {
    fn default() -> (c: Self)
        ensures
            c.basis_reduceonly_window_s == 5,
            c.basis_reduceonly_cooldown_s == 300,
            c.basis_kill_window_s == 5,
    {
        Self { basis_reduceonly_window_s: 5, basis_reduceonly_cooldown_s: 300, basis_kill_window_s: 5 }
    }
}

/// One tick's basis, read against the two thresholds.
#[derive(Debug, Clone, Copy, PartialEq, Eq, Structural)]
pub struct BasisReading {
    /// max basis (bps) >= basis_kill_bps.
    pub kill_exceeds: bool,
    /// max basis (bps) >= basis_reduceonly_bps.
    pub reduceonly_exceeds: bool,
}

#[derive(Debug, Clone, Copy, PartialEq, Eq, Structural)]
pub enum BasisDecision {
    Normal,
    ForceReduceOnly { cooldown_s: u64 },
    ForceKill,
}

/// Continuous-breach window for one threshold.
#[derive(Debug, Clone, Copy, PartialEq, Eq, Structural)]
pub struct WindowState {
    pub trip_start_ms: Option<u64>,
}

pub open spec fn elapsed_since(now: u64, start: u64) -> int {
    if now >= start {
        now - start
    } else {
        0
    }
}

/// Window after one observation, and whether the breach has lasted `window_s` seconds.
pub open spec fn window_step(w: WindowState, exceeds: bool, now: u64, window_s: u64) -> (WindowState, bool) {
    if exceeds {
        let start = match w.trip_start_ms {
            Some(s) => s,
            None => now,
        };
        (WindowState { trip_start_ms: Some(start) }, elapsed_since(now, start) >= window_s * 1000)
    } else {
        (WindowState { trip_start_ms: None }, false)
    }
}

impl WindowState {
    pub fn new() -> (w: Self)
        ensures
            w.trip_start_ms is None,
    {
        Self { trip_start_ms: None }
    }

    pub fn update_and_check(&mut self, exceeds: bool, now_ms: u64, window_s: u64) -> (r: bool)
        requires
            window_s <= u64::MAX / 1000,
        ensures
            (*final(self), r) == window_step(*old(self), exceeds, now_ms, window_s),
    {
        if exceeds {
            let start = match self.trip_start_ms {
                Some(s) => s,
                None => now_ms,
            };
            self.trip_start_ms = Some(start);
            let elapsed_ms = now_ms.saturating_sub(start);
            elapsed_ms >= window_s * 1_000
        } else {
            self.trip_start_ms = None;
            false
        }
    }
}

/// Stateful evaluator of the basis trip rules.
pub struct BasisMonitor {
    pub kill_window: WindowState,
    pub reduceonly_window: WindowState,
    /// Number of ticks that produced a trip.
    pub trip_total: u64,
}

pub open spec fn basis_config_ok(c: BasisWindowConfig) -> bool {
    c.basis_reduceonly_window_s <= u64::MAX / 1000 && c.basis_kill_window_s <= u64::MAX / 1000
}

/// Decision and monitor after one tick: a missing or stale reading fails closed to
/// ForceReduceOnly and resets both windows; a kill breach held for its window forces Kill;
/// a reduce-only breach held for its window forces ReduceOnly.
pub open spec fn basis_step(m: BasisMonitor, reading: Option<BasisReading>, now: u64, c: BasisWindowConfig) -> (BasisDecision, BasisMonitor) {
    match reading {
        None => (
            BasisDecision::ForceReduceOnly { cooldown_s: c.basis_reduceonly_cooldown_s },
            BasisMonitor {
                kill_window: WindowState { trip_start_ms: None },
                reduceonly_window: WindowState { trip_start_ms: None },
                trip_total: bumped(m.trip_total),
            },
        ),
        Some(r) => {
            let (kw, kill_tripped) = window_step(m.kill_window, r.kill_exceeds, now, c.basis_kill_window_s);
            if kill_tripped {
                let (rw, _) = window_step(m.reduceonly_window, true, now, c.basis_reduceonly_window_s);
                (BasisDecision::ForceKill, BasisMonitor { kill_window: kw, reduceonly_window: rw, trip_total: bumped(m.trip_total) })
            } else {
                let (rw, ro_tripped) = window_step(m.reduceonly_window, r.reduceonly_exceeds, now, c.basis_reduceonly_window_s);
                if ro_tripped {
                    (
                        BasisDecision::ForceReduceOnly { cooldown_s: c.basis_reduceonly_cooldown_s },
                        BasisMonitor { kill_window: kw, reduceonly_window: rw, trip_total: bumped(m.trip_total) },
                    )
                } else {
                    (BasisDecision::Normal, BasisMonitor { kill_window: kw, reduceonly_window: rw, trip_total: m.trip_total })
                }
            }
        },
    }
}

impl BasisMonitor {
    pub fn new() -> (m: Self)
        ensures
            m.kill_window.trip_start_ms is None,
            m.reduceonly_window.trip_start_ms is None,
            m.trip_total == 0,
    {
        Self { kill_window: WindowState::new(), reduceonly_window: WindowState::new(), trip_total: 0 }
    }

    pub fn evaluate(&mut self, reading: Option<BasisReading>, now_ms: u64, config: BasisWindowConfig) -> (d: BasisDecision)
        requires
            basis_config_ok(config),
        ensures
            (d, *final(self)) == basis_step(*old(self), reading, now_ms, config),
    {
        let r = match reading {
            Some(r) => r,
            None => {
                self.trip_total = bump_count(self.trip_total);
                self.kill_window.trip_start_ms = None;
                self.reduceonly_window.trip_start_ms = None;
                return BasisDecision::ForceReduceOnly { cooldown_s: config.basis_reduceonly_cooldown_s };
            },
        };
        let kill_tripped = self.kill_window.update_and_check(r.kill_exceeds, now_ms, config.basis_kill_window_s);
        if kill_tripped {
            self.reduceonly_window.update_and_check(true, now_ms, config.basis_reduceonly_window_s);
            self.trip_total = bump_count(self.trip_total);
            return BasisDecision::ForceKill;
        }
        let ro_tripped = self.reduceonly_window.update_and_check(
            r.reduceonly_exceeds,
            now_ms,
            config.basis_reduceonly_window_s,
        );
        if ro_tripped {
            self.trip_total = bump_count(self.trip_total);
            return BasisDecision::ForceReduceOnly { cooldown_s: config.basis_reduceonly_cooldown_s };
        }
        BasisDecision::Normal
    }

    pub fn trip_total(&self) -> (r: u64)
        ensures
            r == self.trip_total,
    {
        self.trip_total
    }
}

impl Default for BasisMonitor {
    fn default() -> (m: Self)
        ensures
            m.trip_total == 0,
    {
        Self::new()
    }
}

/// A breach shorter than its window never trips; with a positive window the very first
/// breach observation (no window yet open) never trips.
pub proof fn lemma_first_breach_does_not_trip(now: u64, window_s: u64)
    requires
        window_s > 0,
    ensures
        !window_step(WindowState { trip_start_ms: None }, true, now, window_s).1,
{
}

/// A tick without a breach closes the window, so a later breach starts a new window.
pub proof fn lemma_clear_resets_window(w: WindowState, now: u64, window_s: u64)
    ensures
        window_step(w, false, now, window_s) == (WindowState { trip_start_ms: None }, false),
{
}

/// One tick given to the monitor: the reading, the time and the configuration.
pub type BasisTick = (Option<BasisReading>, u64, BasisWindowConfig);

/// The monitor after a sequence of ticks, starting from `m`.
pub open spec fn basis_run(m: BasisMonitor, ticks: Seq<BasisTick>) -> BasisMonitor
    decreases ticks.len(),
{
    if ticks.len() == 0 {
        m
    } else {
        let t = ticks.last();
        basis_step(basis_run(m, ticks.drop_last()), t.0, t.1, t.2).1
    }
}

/// The number of ticks in the sequence whose decision was not Normal.
pub open spec fn basis_run_trips(m: BasisMonitor, ticks: Seq<BasisTick>) -> nat
    decreases ticks.len(),
{
    if ticks.len() == 0 {
        0
    } else {
        let t = ticks.last();
        let d = basis_step(basis_run(m, ticks.drop_last()), t.0, t.1, t.2).0;
        basis_run_trips(m, ticks.drop_last()) + if d != BasisDecision::Normal {
            1nat
        } else {
            0nat
        }
    }
}

/// Law (trip total): over any sequence of evaluations, the trip total grows by exactly
/// the number of evaluations that did not return Normal (wrapping at `u64::MAX`); from a
/// new monitor it is that number.
pub proof fn lemma_trip_total_counts_trips(m: BasisMonitor, ticks: Seq<BasisTick>)
    ensures
        basis_run(m, ticks).trip_total == counted(m.trip_total, basis_run_trips(m, ticks)),
    decreases ticks.len(),
{
    if ticks.len() == 0 {
        lemma_counted_zero(m.trip_total);
    } else {
        lemma_trip_total_counts_trips(m, ticks.drop_last());
        lemma_counted_step(m.trip_total, basis_run_trips(m, ticks.drop_last()));
    }
}

} // verus!
