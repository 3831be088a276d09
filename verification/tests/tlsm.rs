use soldier_core::execution::state::{TlsmEvent, TlsmState};
use soldier_core::execution::tlsm::{step, TlsmMetrics, TlsmTimestamps};

#[test]
fn in_order_lifecycle_reaches_filled() {
    let mut metrics = TlsmMetrics::new();
    let mut state = TlsmState::Created;
    let mut ts = TlsmTimestamps { sent_ts: None, ack_ts: None, last_fill_ts: None };
    assert_eq!(step(&mut metrics, &mut state, &mut ts, TlsmEvent::Sent { ts_ms: 10 }), (TlsmState::Created, TlsmState::Sent));
    assert_eq!(step(&mut metrics, &mut state, &mut ts, TlsmEvent::Acked { ts_ms: 20 }).1, TlsmState::Acked);
    assert_eq!(step(&mut metrics, &mut state, &mut ts, TlsmEvent::PartiallyFilled { ts_ms: 30 }).1, TlsmState::PartiallyFilled);
    assert_eq!(step(&mut metrics, &mut state, &mut ts, TlsmEvent::Filled { ts_ms: 40 }).1, TlsmState::Filled);
    assert_eq!(metrics.out_of_order_total(), 0);
    assert_eq!(ts, TlsmTimestamps { sent_ts: Some(10), ack_ts: Some(20), last_fill_ts: Some(40) });
    assert_eq!(state.as_str(), "Filled");
}

#[test]
fn fill_before_ack_is_counted_but_applied() {
    let mut metrics = TlsmMetrics::new();
    let mut state = TlsmState::Created;
    let mut ts = TlsmTimestamps { sent_ts: None, ack_ts: None, last_fill_ts: None };
    let r = step(&mut metrics, &mut state, &mut ts, TlsmEvent::Filled { ts_ms: 5 });
    assert_eq!(r, (TlsmState::Created, TlsmState::Filled));
    assert_eq!(metrics.out_of_order_total(), 1);
    // Filled is terminal: a late cancel does not leave it.
    let r2 = step(&mut metrics, &mut state, &mut ts, TlsmEvent::Canceled { ts_ms: 6 });
    assert_eq!(r2.1, TlsmState::Filled);
    assert!(state.is_terminal());
}
