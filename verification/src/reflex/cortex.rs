//! Reflexive cortex: per-tick safety override from market microstructure stress.
//!
//! The spread, depth and DVOL readings are compared with their float thresholds where
//! they are taken; this module receives the outcome of each comparison and decides the
//! override, keeping the continuous-breach windows for the kill thresholds.

use vstd::prelude::*;

use crate::metrics::{bump_count, bumped};

verus! {

/// Safety override emitted each tick.
#[derive(Debug, Clone, Copy, PartialEq, Eq, Structural)]
pub enum CortexSignal {
    /// No override: conditions are within thresholds.
    NoOverride,
    /// Force ReduceOnly for `cooldown_s` seconds.
    ForceReduceOnly { cooldown_s: u64 },
    /// Force Kill.
    ForceKill,
}

/// Severity for aggregation: NoOverride < ForceReduceOnly < ForceKill.
pub open spec fn severity_spec(s: CortexSignal) -> u8 {
    match s {
        CortexSignal::NoOverride => 0,
        CortexSignal::ForceReduceOnly { .. } => 1,
        CortexSignal::ForceKill => 2,
    }
}

impl CortexSignal {
    fn severity(&self) -> (r: u8)
        ensures
            r == severity_spec(*self),
    {
        match self {
            CortexSignal::NoOverride => 0,
            CortexSignal::ForceReduceOnly { .. } => 1,
            CortexSignal::ForceKill => 2,
        }
    }

    /// The more severe of two overrides; the first one on a tie.
    pub fn max_severity(a: CortexSignal, b: CortexSignal) -> (r: CortexSignal)
        ensures
            r == if severity_spec(a) >= severity_spec(b) {
                a
            } else {
                b
            },
    {
        if a.severity() >= b.severity() {
            a
        } else {
            b
        }
    }
}

/// Whether a cancel/replace may proceed.
#[derive(Debug, Clone, Copy, PartialEq, Eq, Structural)]
pub enum CancelReplacePermission {
    Allowed,
    /// A WS gap is active and the request is risk-increasing.
    Blocked,
}

/// Counters of emitted overrides.
#[derive(Debug, Clone, Copy)]
pub struct CortexCounters {
    /// ForceReduceOnly emitted, for any cause.
    pub force_reduce_only_total: u64,
    /// ForceKill emitted.
    pub force_kill_total: u64,
    /// ForceReduceOnly emitted because an input was missing or stale.
    pub fail_closed_total: u64,
}

impl Default for CortexCounters {
    fn default() -> (c: Self)
        ensures
            c.force_reduce_only_total == 0,
            c.force_kill_total == 0,
            c.fail_closed_total == 0,
    {
        Self { force_reduce_only_total: 0, force_kill_total: 0, fail_closed_total: 0 }
    }
}

/// The cortex timing parameters, in seconds.
#[derive(Debug, Clone, Copy)]
pub struct CortexTiming {
    /// Continuous breach of a kill threshold for this long forces Kill.
    pub cortex_kill_window_s: u64,
    /// Rolling window for DVOL jump detection.
    pub dvol_jump_window_s: u64,
    /// Cooldown after a DVOL jump.
    pub dvol_cooldown_s: u64,
    /// Cooldown after a spread or depth trip.
    pub spread_depth_cooldown_s: u64,
}

impl Default for CortexTiming {
    fn default() -> (t: Self)
        ensures
            t.cortex_kill_window_s == 10,
            t.dvol_jump_window_s == 60,
            t.dvol_cooldown_s == 300,
            t.spread_depth_cooldown_s == 120,
    {
        Self {
            cortex_kill_window_s: 10,
            dvol_jump_window_s: 60,
            dvol_cooldown_s: 300,
            spread_depth_cooldown_s: 120,
        }
    }
}

/// One tick's readings, each the outcome of comparing a market reading with its
/// threshold.
#[derive(Debug, Clone, Copy)]
pub struct CortexReading {
    /// Spread at or above the kill threshold.
    pub spread_kill_exceeds: bool,
    /// Depth at or below the kill minimum.
    pub depth_kill_exceeds: bool,
    /// DVOL rose by at least the jump fraction over the window minimum.
    pub dvol_jump: bool,
    /// Spread above the ReduceOnly maximum.
    pub spread_ro_exceeds: bool,
    /// Depth below the ReduceOnly minimum.
    pub depth_ro_exceeds: bool,
    /// Wall-clock time of the tick, in ms.
    pub now_ms: u64,
}

/// Continuous-breach tracking for one kill threshold.
#[derive(Debug, Clone, Copy)]
pub struct KillWindowState {
    /// When the current breach began (`None` while not breaching).
    pub trip_start_ms: Option<u64>,
}

/// Window state after a tick, and whether the breach has lasted the whole window.
pub open spec fn window_step(start: Option<u64>, exceeds: bool, now_ms: u64, window_s: u64) -> (
    Option<u64>,
    bool,
) {
    if exceeds {
        let s = match start {
            Some(s) => s,
            None => now_ms,
        };
        (Some(s), (if now_ms >= s { now_ms - s } else { 0 }) >= window_s * 1000)
    } else {
        (None, false)
    }
}

impl KillWindowState {
    fn new() -> (w: Self)
        ensures
            w.trip_start_ms is None,
    {
        Self { trip_start_ms: None }
    }

    fn update_and_check(&mut self, exceeds: bool, now_ms: u64, window_s: u64) -> (tripped: bool)
        requires
            window_s <= u64::MAX / 1000,
        ensures
            (final(self).trip_start_ms, tripped) == window_step(
                old(self).trip_start_ms,
                exceeds,
                now_ms,
                window_s,
            ),
    {
        if exceeds {
            let start = match self.trip_start_ms {
                Some(s) => s,
                None => now_ms,
            };
            self.trip_start_ms = Some(start);
            now_ms.saturating_sub(start) >= window_s * 1_000
        } else {
            self.trip_start_ms = None;
            false
        }
    }
}

/// The override for a tick whose readings are all present.
pub open spec fn cortex_signal(
    spread_tripped: bool,
    depth_tripped: bool,
    reading: CortexReading,
    timing: CortexTiming,
) -> CortexSignal {
    if spread_tripped || depth_tripped {
        CortexSignal::ForceKill
    } else if reading.dvol_jump {
        CortexSignal::ForceReduceOnly { cooldown_s: timing.dvol_cooldown_s }
    } else if reading.spread_ro_exceeds || reading.depth_ro_exceeds {
        CortexSignal::ForceReduceOnly { cooldown_s: timing.spread_depth_cooldown_s }
    } else {
        CortexSignal::NoOverride
    }
}

/// The counters after emitting `signal`; `fail_closed` marks an emission caused by a
/// missing input.
pub open spec fn counted(c: CortexCounters, signal: CortexSignal, fail_closed: bool) -> CortexCounters {
    CortexCounters {
        force_reduce_only_total: if signal is ForceReduceOnly {
            bumped(c.force_reduce_only_total)
        } else {
            c.force_reduce_only_total
        },
        force_kill_total: if signal is ForceKill {
            bumped(c.force_kill_total)
        } else {
            c.force_kill_total
        },
        fail_closed_total: if fail_closed {
            bumped(c.fail_closed_total)
        } else {
            c.fail_closed_total
        },
    }
}

/// The trip state of the cortex: the two kill windows and the counters.
pub struct CortexMonitor {
    pub spread_kill_window: KillWindowState,
    pub depth_kill_window: KillWindowState,
    pub counters: CortexCounters,
}

impl CortexMonitor {
    pub fn new() -> (m: Self)
        ensures
            m.spread_kill_window.trip_start_ms is None,
            m.depth_kill_window.trip_start_ms is None,
            m.counters == (CortexCounters {
                force_reduce_only_total: 0,
                force_kill_total: 0,
                fail_closed_total: 0,
            }),
    {
        Self {
            spread_kill_window: KillWindowState::new(),
            depth_kill_window: KillWindowState::new(),
            counters: CortexCounters::default(),
        }
    }

    /// Decides the override for one tick. `None` stands for a tick with a missing or
    /// stale input: it fails closed and resets both kill windows.
    ///
    /// Priority: missing input, then a tripped kill window (Kill), then a DVOL jump,
    /// then the spread and depth ReduceOnly thresholds.
    pub fn evaluate(&mut self, reading: Option<CortexReading>, timing: &CortexTiming) -> (signal:
        CortexSignal)
        requires
            timing.cortex_kill_window_s <= u64::MAX / 1000,
        ensures
            reading is None ==> {
                &&& signal == CortexSignal::ForceReduceOnly {
                    cooldown_s: timing.spread_depth_cooldown_s,
                }
                &&& final(self).spread_kill_window.trip_start_ms is None
                &&& final(self).depth_kill_window.trip_start_ms is None
                &&& final(self).counters == counted(old(self).counters, signal, true)
            },
            reading matches Some(r) ==> {
                let sw = window_step(
                    old(self).spread_kill_window.trip_start_ms,
                    r.spread_kill_exceeds,
                    r.now_ms,
                    timing.cortex_kill_window_s,
                );
                let dw = window_step(
                    old(self).depth_kill_window.trip_start_ms,
                    r.depth_kill_exceeds,
                    r.now_ms,
                    timing.cortex_kill_window_s,
                );
                &&& final(self).spread_kill_window.trip_start_ms == sw.0
                &&& final(self).depth_kill_window.trip_start_ms == dw.0
                &&& signal == cortex_signal(sw.1, dw.1, r, *timing)
                &&& final(self).counters == counted(old(self).counters, signal, false)
            },
    {
        match reading {
            None => {
                self.counters.force_reduce_only_total = bump_count(
                    self.counters.force_reduce_only_total,
                );
                self.counters.fail_closed_total = bump_count(self.counters.fail_closed_total);
                self.spread_kill_window.trip_start_ms = None;
                self.depth_kill_window.trip_start_ms = None;
                CortexSignal::ForceReduceOnly { cooldown_s: timing.spread_depth_cooldown_s }
            },
            Some(r) => {
                let spread_tripped = self.spread_kill_window.update_and_check(
                    r.spread_kill_exceeds,
                    r.now_ms,
                    timing.cortex_kill_window_s,
                );
                let depth_tripped = self.depth_kill_window.update_and_check(
                    r.depth_kill_exceeds,
                    r.now_ms,
                    timing.cortex_kill_window_s,
                );
                if spread_tripped || depth_tripped {
                    self.counters.force_kill_total = bump_count(self.counters.force_kill_total);
                    return CortexSignal::ForceKill;
                }
                if r.dvol_jump {
                    self.counters.force_reduce_only_total = bump_count(
                        self.counters.force_reduce_only_total,
                    );
                    return CortexSignal::ForceReduceOnly { cooldown_s: timing.dvol_cooldown_s };
                }
                if r.spread_ro_exceeds || r.depth_ro_exceeds {
                    self.counters.force_reduce_only_total = bump_count(
                        self.counters.force_reduce_only_total,
                    );
                    return CortexSignal::ForceReduceOnly {
                        cooldown_s: timing.spread_depth_cooldown_s,
                    };
                }
                CortexSignal::NoOverride
            },
        }
    }

    /// A risk-increasing cancel/replace is blocked while a WS gap is active.
    pub fn evaluate_cancel_replace(ws_gap_flag: bool, is_risk_increasing: bool) -> (r:
        CancelReplacePermission)
        ensures
            r == if ws_gap_flag && is_risk_increasing {
                CancelReplacePermission::Blocked
            } else {
                CancelReplacePermission::Allowed
            },
    {
        if ws_gap_flag && is_risk_increasing {
            CancelReplacePermission::Blocked
        } else {
            CancelReplacePermission::Allowed
        }
    }
}

impl Default for CortexMonitor {
    fn default() -> (m: Self)
        ensures
            m.spread_kill_window.trip_start_ms is None,
            m.depth_kill_window.trip_start_ms is None,
    {
        Self::new()
    }
}

/// A kill threshold breached on one tick only does not force Kill: with both windows
/// idle and a positive kill window, the override of the next tick is not Kill.
pub proof fn lemma_kill_needs_continuous_breach(
    spread_start: Option<u64>,
    depth_start: Option<u64>,
    reading: CortexReading,
    timing: CortexTiming,
)
    requires
        spread_start is None,
        depth_start is None,
        timing.cortex_kill_window_s > 0,
    ensures
        cortex_signal(
            window_step(spread_start, reading.spread_kill_exceeds, reading.now_ms, timing.cortex_kill_window_s).1,
            window_step(depth_start, reading.depth_kill_exceeds, reading.now_ms, timing.cortex_kill_window_s).1,
            reading,
            timing,
        ) != CortexSignal::ForceKill,
{
}

/// A breach that has lasted the whole window forces Kill, whatever the other readings.
pub proof fn lemma_sustained_breach_kills(
    spread_start: u64,
    reading: CortexReading,
    depth_tripped: bool,
    timing: CortexTiming,
)
    requires
        reading.spread_kill_exceeds,
        reading.now_ms >= spread_start,
        reading.now_ms - spread_start >= timing.cortex_kill_window_s * 1000,
    ensures
        cortex_signal(
            window_step(Some(spread_start), true, reading.now_ms, timing.cortex_kill_window_s).1,
            depth_tripped,
            reading,
            timing,
        ) == CortexSignal::ForceKill,
{
}

/// `max_severity` never lowers severity and returns one of its arguments.
pub proof fn lemma_max_severity_is_max(a: CortexSignal, b: CortexSignal)
    ensures
        ({
            let m = if severity_spec(a) >= severity_spec(b) {
                a
            } else {
                b
            };
            &&& severity_spec(m) >= severity_spec(a)
            &&& severity_spec(m) >= severity_spec(b)
            &&& (m == a || m == b)
        }),
{
}

/// Law (every threshold counts): with all readings present, the override is Kill
/// exactly when a kill window has tripped; otherwise a DVOL jump forces ReduceOnly with
/// the DVOL cooldown, and a spread above its maximum or a depth below its minimum, each
/// on its own, forces ReduceOnly with the spread/depth cooldown; there is no override
/// exactly when no window tripped and no threshold is crossed.
pub proof fn lemma_every_threshold_counts(
    spread_tripped: bool,
    depth_tripped: bool,
    reading: CortexReading,
    timing: CortexTiming,
)
    ensures
        ({
            let sig = cortex_signal(spread_tripped, depth_tripped, reading, timing);
            let tripped = spread_tripped || depth_tripped;
            &&& (sig is ForceKill <==> tripped)
            &&& (sig == CortexSignal::NoOverride <==> (!tripped && !reading.dvol_jump
                && !reading.spread_ro_exceeds && !reading.depth_ro_exceeds))
            &&& (!tripped && reading.dvol_jump) ==> sig == CortexSignal::ForceReduceOnly {
                cooldown_s: timing.dvol_cooldown_s,
            }
            &&& (!tripped && !reading.dvol_jump && (reading.spread_ro_exceeds
                || reading.depth_ro_exceeds)) ==> sig == CortexSignal::ForceReduceOnly {
                cooldown_s: timing.spread_depth_cooldown_s,
            }
        }),
{
}

} // verus!
