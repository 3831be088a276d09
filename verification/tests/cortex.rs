use soldier_core::reflex::cortex::{
    CancelReplacePermission, CortexMonitor, CortexReading, CortexSignal, CortexTiming,
};

/// Float thresholds of the default cortex configuration, applied where readings are taken.
const SPREAD_MAX_BPS: f64 = 25.0;
const SPREAD_KILL_BPS: f64 = 75.0;
const DEPTH_MIN: f64 = 300_000.0;
const DEPTH_KILL_MIN: f64 = 100_000.0;

fn reading(spread_bps: f64, depth_top_n: f64, dvol_jump: bool, now_ms: u64) -> CortexReading {
    CortexReading {
        spread_kill_exceeds: spread_bps >= SPREAD_KILL_BPS,
        depth_kill_exceeds: depth_top_n <= DEPTH_KILL_MIN,
        dvol_jump,
        spread_ro_exceeds: spread_bps > SPREAD_MAX_BPS,
        depth_ro_exceeds: depth_top_n < DEPTH_MIN,
        now_ms,
    }
}

#[test]
fn test_normal_below_all_thresholds() {
    let mut monitor = CortexMonitor::new();
    let timing = CortexTiming::default();
    let data = reading(10.0, 500_000.0, false, 100_000);
    assert_eq!(monitor.evaluate(Some(data), &timing), CortexSignal::NoOverride);
}

#[test]
fn test_missing_dvol_fail_closed() {
    let mut monitor = CortexMonitor::new();
    let timing = CortexTiming::default();
    let result = monitor.evaluate(None, &timing);
    assert!(
        matches!(result, CortexSignal::ForceReduceOnly { .. }),
        "Missing dvol must trigger fail-closed ForceReduceOnly"
    );
    assert_eq!(monitor.counters.fail_closed_total, 1);
}

#[test]
fn missing_input_uses_spread_depth_cooldown_and_resets_windows() {
    let mut monitor = CortexMonitor::new();
    let timing = CortexTiming::default();
    monitor.evaluate(Some(reading(80.0, 500_000.0, false, 0)), &timing);
    assert_eq!(monitor.spread_kill_window.trip_start_ms, Some(0));
    let result = monitor.evaluate(None, &timing);
    assert_eq!(result, CortexSignal::ForceReduceOnly { cooldown_s: 120 });
    assert_eq!(monitor.spread_kill_window.trip_start_ms, None);
    assert_eq!(monitor.counters.force_reduce_only_total, 2);
}

#[test]
fn sustained_spread_blowout_kills_after_the_window() {
    let mut monitor = CortexMonitor::new();
    let timing = CortexTiming::default();
    // First breach tick: spread above the ReduceOnly maximum too, but no Kill yet.
    let first = monitor.evaluate(Some(reading(80.0, 500_000.0, false, 0)), &timing);
    assert_eq!(first, CortexSignal::ForceReduceOnly { cooldown_s: 120 });
    let mid = monitor.evaluate(Some(reading(80.0, 500_000.0, false, 9_999)), &timing);
    assert_eq!(mid, CortexSignal::ForceReduceOnly { cooldown_s: 120 });
    let kill = monitor.evaluate(Some(reading(80.0, 500_000.0, false, 10_000)), &timing);
    assert_eq!(kill, CortexSignal::ForceKill);
    assert_eq!(monitor.counters.force_kill_total, 1);
}

#[test]
fn dvol_jump_uses_dvol_cooldown() {
    let mut monitor = CortexMonitor::new();
    let timing = CortexTiming::default();
    let s = monitor.evaluate(Some(reading(10.0, 500_000.0, true, 1)), &timing);
    assert_eq!(s, CortexSignal::ForceReduceOnly { cooldown_s: 300 });
}

#[test]
fn max_severity_prefers_kill_then_reduce_only() {
    let ro = CortexSignal::ForceReduceOnly { cooldown_s: 5 };
    assert_eq!(CortexSignal::max_severity(CortexSignal::NoOverride, ro), ro);
    assert_eq!(CortexSignal::max_severity(CortexSignal::ForceKill, ro), CortexSignal::ForceKill);
    assert_eq!(
        CortexSignal::max_severity(ro, CortexSignal::ForceReduceOnly { cooldown_s: 9 }),
        ro
    );
}

#[test]
fn cancel_replace_blocked_only_for_risk_increasing_during_ws_gap() {
    assert_eq!(
        CortexMonitor::evaluate_cancel_replace(true, true),
        CancelReplacePermission::Blocked
    );
    assert_eq!(
        CortexMonitor::evaluate_cancel_replace(true, false),
        CancelReplacePermission::Allowed
    );
    assert_eq!(
        CortexMonitor::evaluate_cancel_replace(false, true),
        CancelReplacePermission::Allowed
    );
}

// A reading is only taken when dvol, spread and depth are all present; a missing
// spread or depth therefore reaches the monitor as no reading at all.
#[test]
fn test_missing_spread_fail_closed() {
    let mut monitor = CortexMonitor::new();
    let timing = CortexTiming::default();
    let result = monitor.evaluate(None, &timing);
    assert!(
        matches!(result, CortexSignal::ForceReduceOnly { .. }),
        "Missing spread must trigger fail-closed ForceReduceOnly"
    );
}

#[test]
fn test_missing_depth_fail_closed() {
    let mut monitor = CortexMonitor::new();
    let timing = CortexTiming::default();
    let result = monitor.evaluate(None, &timing);
    assert!(
        matches!(result, CortexSignal::ForceReduceOnly { .. }),
        "Missing depth must trigger fail-closed ForceReduceOnly"
    );
}
