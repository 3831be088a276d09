use soldier_core::risk::basis_monitor::{BasisDecision, BasisMonitor, BasisReading, BasisWindowConfig};

/// Default float thresholds, applied where the basis is computed.
const BASIS_REDUCEONLY_BPS: f64 = 50.0;
const BASIS_KILL_BPS: f64 = 150.0;

fn basis_bps(mark: f64, other: f64) -> f64 {
    ((other - mark) / mark).abs() * 10_000.0
}

fn reading(mark: f64, index: f64, last: f64) -> BasisReading {
    let max = basis_bps(mark, index).max(basis_bps(mark, last));
    BasisReading { kill_exceeds: max >= BASIS_KILL_BPS, reduceonly_exceeds: max >= BASIS_REDUCEONLY_BPS }
}

#[test]
fn test_normal_below_threshold() {
    let mut monitor = BasisMonitor::new();
    let config = BasisWindowConfig::default();
    let now_ms = 100_000;
    let decision = monitor.evaluate(Some(reading(100.0, 100.1, 100.2)), now_ms, config);
    assert_eq!(decision, BasisDecision::Normal);
}

#[test]
fn test_missing_price_fail_closed() {
    let mut monitor = BasisMonitor::new();
    let config = BasisWindowConfig::default();
    let decision = monitor.evaluate(None, 100_000, config);
    assert_eq!(
        decision,
        BasisDecision::ForceReduceOnly { cooldown_s: 300 },
        "Missing price must trigger fail-closed ForceReduceOnly"
    );
}

#[test]
fn sustained_reduceonly_breach_trips_after_window() {
    let mut monitor = BasisMonitor::new();
    let config = BasisWindowConfig::default();
    let r = BasisReading { kill_exceeds: false, reduceonly_exceeds: true };
    assert_eq!(monitor.evaluate(Some(r), 0, config), BasisDecision::Normal);
    assert_eq!(
        monitor.evaluate(Some(r), 5_000, config),
        BasisDecision::ForceReduceOnly { cooldown_s: 300 }
    );
    let k = BasisReading { kill_exceeds: true, reduceonly_exceeds: true };
    assert_eq!(monitor.evaluate(Some(k), 6_000, config), BasisDecision::ForceReduceOnly { cooldown_s: 300 });
    assert_eq!(monitor.evaluate(Some(k), 11_000, config), BasisDecision::ForceKill);
}

// A price older than the maximum age gives no reading, as a missing one does.
#[test]
fn test_stale_price_fail_closed() {
    let mut monitor = BasisMonitor::new();
    let config = BasisWindowConfig::default();
    let decision = monitor.evaluate(None, 100_000, config);
    assert_eq!(
        decision,
        BasisDecision::ForceReduceOnly { cooldown_s: 300 },
        "Stale price must trigger fail-closed ForceReduceOnly"
    );
}
