use soldier_core::execution::emergency_close::{
    close_buffer_ticks, hedge_side, next_close_attempt, INITIAL_BUFFER_TICKS, MAX_CLOSE_ATTEMPTS,
};
use soldier_core::execution::order_dispatcher::{DispatchError, OrderSide, ProductionDispatcher};

#[test]
fn test_emergency_close_buffer_doubling_sequence() {
    let buffers = vec![
        INITIAL_BUFFER_TICKS * 1, // 5
        INITIAL_BUFFER_TICKS * 2, // 10
        INITIAL_BUFFER_TICKS * 4, // 20
    ];

    for (idx, expected) in buffers.iter().enumerate() {
        let attempt_num = (idx + 1) as u8;
        let actual = INITIAL_BUFFER_TICKS * (1 << (attempt_num - 1));
        assert_eq!(actual, *expected);
        assert_eq!(close_buffer_ticks(attempt_num), *expected);
    }
}

#[test]
fn close_schedule_stops_after_three_attempts_or_when_neutral() {
    assert_eq!(next_close_attempt(0, false), Some((1, 5)));
    assert_eq!(next_close_attempt(1, false), Some((2, 10)));
    assert_eq!(next_close_attempt(2, false), Some((3, 20)));
    assert_eq!(next_close_attempt(MAX_CLOSE_ATTEMPTS, false), None);
    assert_eq!(next_close_attempt(1, true), None);
}

#[test]
fn hedge_trades_opposite_to_close() {
    assert_eq!(hedge_side(OrderSide::Buy), OrderSide::Sell);
    assert_eq!(hedge_side(OrderSide::Sell), OrderSide::Buy);
}

#[test]
fn test_production_dispatcher_errors() {
    let _d = ProductionDispatcher::new();
    let close = ProductionDispatcher::close_error();
    assert!(close.message.contains("NOT IMPLEMENTED"));
    let hedge = ProductionDispatcher::hedge_error();
    assert!(hedge.message.contains("NOT IMPLEMENTED"));
    let e = DispatchError::new("boom");
    assert_eq!(e.to_string(), "Dispatch error: boom");
}
