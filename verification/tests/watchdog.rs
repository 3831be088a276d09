use soldier_core::policy::watchdog::{
    check_watchdog, emergency_reduceonly_effect, handle_emergency_reduce_only_at,
    maybe_clear_emergency_reduceonly, EmergencyReduceOnlyState, HttpMethod, HttpRequest, Order,
};

#[test]
fn post_activates_the_latch_for_the_cooldown() {
    let mut state = EmergencyReduceOnlyState::new(300);
    let resp = handle_emergency_reduce_only_at(&HttpRequest::post(), &mut state, 1_000);
    assert_eq!(resp.status, 200);
    assert_eq!(resp.body, "{\"ok\":true,\"emergency_reduceonly_until_ts_ms\":301000}");
    assert!(state.is_active(1_000));
    assert!(state.is_active(300_999));
    assert!(!state.is_active(301_000));
    assert_eq!(state.calls_total(), 1);
}

#[test]
fn other_methods_are_refused() {
    let mut state = EmergencyReduceOnlyState::new(300);
    let resp = handle_emergency_reduce_only_at(&HttpRequest::with_method(HttpMethod::Get), &mut state, 1_000);
    assert_eq!(resp.status, 405);
    assert_eq!(resp.body, "{\"error\":\"method not allowed\"}");
    assert!(!state.is_active(1_000));
    assert_eq!(state.calls_total(), 0);
}

#[test]
fn ws_silence_triggers_and_clear_needs_expiry_and_reconcile() {
    let mut state = EmergencyReduceOnlyState::new(10);
    assert!(!check_watchdog(5_000, &mut state, 0));
    assert!(check_watchdog(5_001, &mut state, 0));
    assert_eq!(state.until_ts_ms(), 10_000);
    maybe_clear_emergency_reduceonly(&mut state, 9_999, true);
    assert_eq!(state.until_ts_ms(), 10_000);
    maybe_clear_emergency_reduceonly(&mut state, 10_000, false);
    assert_eq!(state.until_ts_ms(), 10_000);
    maybe_clear_emergency_reduceonly(&mut state, 10_000, true);
    assert_eq!(state.until_ts_ms(), 0);
}

#[test]
fn effect_cancels_opens_and_keeps_reduce_only_orders() {
    let orders = vec![
        Order { order_id: "o1".to_string(), reduce_only: false },
        Order { order_id: "r1".to_string(), reduce_only: true },
        Order { order_id: "o2".to_string(), reduce_only: false },
    ];
    let e = emergency_reduceonly_effect(&orders, true);
    assert_eq!(e.cancel_orders, vec!["o1".to_string(), "o2".to_string()]);
    assert_eq!(e.preserve_orders, vec!["r1".to_string()]);
    assert!(e.submit_hedge);
}
