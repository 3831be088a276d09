use vstd::prelude::*;

use crate::metrics::{bump_count, bumped, counted, lemma_counted_step, lemma_counted_zero};

verus! {

/// Integer thresholds of the bunker-mode rules; the timeout-rate threshold is applied when
/// the timeout reading is taken.
#[derive(Debug, Clone, Copy, PartialEq, Eq, Structural)]
pub struct NetworkJitterConfig {
    pub bunker_jitter_threshold_ms: u64,
    pub bunker_exit_stable_s: u64,
    pub http_p95_threshold_ms: u64,
    pub http_p95_consecutive_windows: u32,
}

impl Default for NetworkJitterConfig {
    fn default() -> (c: Self)
        ensures
            c.bunker_jitter_threshold_ms == 2_000,
            c.bunker_exit_stable_s == 120,
            c.http_p95_threshold_ms == 750,
            c.http_p95_consecutive_windows == 3,
    {
        Self {
            bunker_jitter_threshold_ms: 2_000,
            bunker_exit_stable_s: 120,
            http_p95_threshold_ms: 750,
            http_p95_consecutive_windows: 3,
        }
    }
}

/// Jitter metrics of one tick.
#[derive(Debug, Clone, Copy, PartialEq, Eq, Structural)]
pub struct JitterInputs {
    pub ws_event_lag_ms: Option<u64>,
    pub http_p95_ms: Option<u64>,
    /// request_timeout_rate > timeout_rate_threshold; `None` if the rate is unknown.
    pub request_timeout_exceeded: Option<bool>,
}

/// Bunker-mode state machine.
pub struct NetworkJitterMonitor {
    pub bunker_mode_active: bool,
    pub stable_start_ms: Option<u64>,
    pub http_p95_consecutive: u32,
    /// Number of entries into bunker mode.
    pub trip_total: u64,
}

/// Exported gauge values.
pub struct JitterMetrics {
    pub ws_event_lag_ms: Option<u64>,
    pub deribit_http_p95_ms: Option<u64>,
    pub bunker_mode_trip_total: u64,
}

pub open spec fn sat_inc_u32(x: u32) -> u32 {
    if x == u32::MAX {
        x
    } else {
        (x + 1) as u32
    }
}

/// Enter (or stay in) bunker mode: the stable timer resets and a fresh entry counts a trip.
pub open spec fn enter_bunker(m: NetworkJitterMonitor, consecutive: u32) -> NetworkJitterMonitor {
    NetworkJitterMonitor {
        bunker_mode_active: true,
        stable_start_ms: None,
        http_p95_consecutive: consecutive,
        trip_total: if m.bunker_mode_active { m.trip_total } else { bumped(m.trip_total) },
    }
}

/// Monitor after one tick; bunker mode is active in it iff the result is `true`.
pub open spec fn jitter_step(m: NetworkJitterMonitor, i: JitterInputs, now: u64, c: NetworkJitterConfig) -> NetworkJitterMonitor {
    match (i.ws_event_lag_ms, i.http_p95_ms, i.request_timeout_exceeded) {
        (Some(ws), Some(http), Some(timeout_trip)) => {
            let consecutive = if http > c.http_p95_threshold_ms { sat_inc_u32(m.http_p95_consecutive) } else { 0 };
            let any_trip = ws > c.bunker_jitter_threshold_ms || consecutive >= c.http_p95_consecutive_windows
                || timeout_trip;
            if any_trip {
                enter_bunker(m, consecutive)
            } else if m.bunker_mode_active {
                let start = match m.stable_start_ms { Some(s) => s, None => now };
                let stable_ms = if now >= start { now - start } else { 0 };
                if stable_ms >= c.bunker_exit_stable_s * 1000 {
                    NetworkJitterMonitor { bunker_mode_active: false, stable_start_ms: None, http_p95_consecutive: consecutive, ..m }
                } else {
                    NetworkJitterMonitor { stable_start_ms: Some(start), http_p95_consecutive: consecutive, ..m }
                }
            } else {
                NetworkJitterMonitor { http_p95_consecutive: consecutive, ..m }
            }
        },
        _ => enter_bunker(m, m.http_p95_consecutive),
    }
}

impl NetworkJitterMonitor {
    pub fn new() -> (m: Self)
        ensures
            !m.bunker_mode_active,
            m.stable_start_ms is None,
            m.http_p95_consecutive == 0,
            m.trip_total == 0,
    {
        Self { bunker_mode_active: false, stable_start_ms: None, http_p95_consecutive: 0, trip_total: 0 }
    }

    /// One tick of the bunker-mode rules; returns whether bunker mode is active after it.
    pub fn evaluate(&mut self, inputs: JitterInputs, now_ms: u64, config: &NetworkJitterConfig) -> (active: bool)
        requires
            config.bunker_exit_stable_s <= u64::MAX / 1000,
        ensures
            *final(self) == jitter_step(*old(self), inputs, now_ms, *config),
            active == final(self).bunker_mode_active,
    {
        let (ws_lag, http_p95, timeout_trip) = match (
            inputs.ws_event_lag_ms,
            inputs.http_p95_ms,
            inputs.request_timeout_exceeded,
        ) {
            (Some(w), Some(h), Some(t)) => (w, h, t),
            _ => {
                let was_active = self.bunker_mode_active;
                self.bunker_mode_active = true;
                self.stable_start_ms = None;
                if !was_active {
                    self.trip_total = bump_count(self.trip_total);
                }
                return true;
            },
        };
        let ws_trip = ws_lag > config.bunker_jitter_threshold_ms;
        if http_p95 > config.http_p95_threshold_ms {
            self.http_p95_consecutive = if self.http_p95_consecutive == u32::MAX {
                u32::MAX
            } else {
                self.http_p95_consecutive + 1
            };
        } else {
            self.http_p95_consecutive = 0;
        }
        let http_trip = self.http_p95_consecutive >= config.http_p95_consecutive_windows;
        if ws_trip || http_trip || timeout_trip {
            let was_active = self.bunker_mode_active;
            self.bunker_mode_active = true;
            self.stable_start_ms = None;
            if !was_active {
                self.trip_total = bump_count(self.trip_total);
            }
            return true;
        }
        if self.bunker_mode_active {
            let start = match self.stable_start_ms {
                Some(s) => s,
                None => now_ms,
            };
            self.stable_start_ms = Some(start);
            let stable_ms = now_ms.saturating_sub(start);
            let required_ms = config.bunker_exit_stable_s * 1_000;
            if stable_ms >= required_ms {
                self.bunker_mode_active = false;
                self.stable_start_ms = None;
            }
        }
        self.bunker_mode_active
    }

    pub fn is_active(&self) -> (r: bool)
        ensures
            r == self.bunker_mode_active,
    {
        self.bunker_mode_active
    }

    pub fn trip_total(&self) -> (r: u64)
        ensures
            r == self.trip_total,
    {
        self.trip_total
    }
}

impl Default for NetworkJitterMonitor {
    fn default() -> (m: Self)
        ensures
            !m.bunker_mode_active,
            m.trip_total == 0,
    {
        Self::new()
    }
}

/// Law (fail-closed): a tick with any metric missing leaves bunker mode active.
pub proof fn lemma_missing_metric_enters_bunker(m: NetworkJitterMonitor, i: JitterInputs, now: u64, c: NetworkJitterConfig)
    requires
        i.ws_event_lag_ms is None || i.http_p95_ms is None || i.request_timeout_exceeded is None,
    ensures
        jitter_step(m, i, now, c).bunker_mode_active,
{
}

/// Law (stable exit): bunker mode is left only on a tick without any trip, and never on the
/// first calm tick when the stable period is positive.
pub proof fn lemma_exit_needs_stable_period(m: NetworkJitterMonitor, i: JitterInputs, now: u64, c: NetworkJitterConfig)
    requires
        m.bunker_mode_active,
        m.stable_start_ms is None,
        c.bunker_exit_stable_s > 0,
    ensures
        jitter_step(m, i, now, c).bunker_mode_active,
{
}

/// One tick given to the monitor: the inputs, the time and the configuration.
pub type JitterTick = (JitterInputs, u64, NetworkJitterConfig);

/// The monitor after a sequence of ticks, starting from `m`.
pub open spec fn jitter_run(m: NetworkJitterMonitor, ticks: Seq<JitterTick>) -> NetworkJitterMonitor
    decreases ticks.len(),
{
    if ticks.len() == 0 {
        m
    } else {
        let t = ticks.last();
        jitter_step(jitter_run(m, ticks.drop_last()), t.0, t.1, t.2)
    }
}

/// The number of ticks that found bunker mode inactive and left it active.
pub open spec fn jitter_run_entries(m: NetworkJitterMonitor, ticks: Seq<JitterTick>) -> nat
    decreases ticks.len(),
{
    if ticks.len() == 0 {
        0
    } else {
        let t = ticks.last();
        let before = jitter_run(m, ticks.drop_last());
        let after = jitter_step(before, t.0, t.1, t.2);
        jitter_run_entries(m, ticks.drop_last()) + if !before.bunker_mode_active
            && after.bunker_mode_active {
            1nat
        } else {
            0nat
        }
    }
}

/// Law (trip total and active flag): over any sequence of evaluations, the trip total
/// grows by exactly the number of inactive-to-active transitions (wrapping at
/// `u64::MAX`), and bunker mode is active afterwards exactly when the last evaluation
/// returned `true` (as it was before, with no evaluation).
pub proof fn lemma_trip_total_counts_entries(m: NetworkJitterMonitor, ticks: Seq<JitterTick>)
    ensures
        jitter_run(m, ticks).trip_total == counted(m.trip_total, jitter_run_entries(m, ticks)),
        ticks.len() == 0 ==> jitter_run(m, ticks).bunker_mode_active == m.bunker_mode_active,
        ticks.len() > 0 ==> jitter_run(m, ticks).bunker_mode_active == jitter_step(
            jitter_run(m, ticks.drop_last()),
            ticks.last().0,
            ticks.last().1,
            ticks.last().2,
        ).bunker_mode_active,
    decreases ticks.len(),
{
    if ticks.len() == 0 {
        lemma_counted_zero(m.trip_total);
    } else {
        lemma_trip_total_counts_entries(m, ticks.drop_last());
        lemma_counted_step(m.trip_total, jitter_run_entries(m, ticks.drop_last()));
    }
}

} // verus!
