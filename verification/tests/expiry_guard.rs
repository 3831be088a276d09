use soldier_core::execution::intent::IntentClass;
use soldier_core::risk::expiry_guard::{ExpiryGuard, ExpiryRejectReason, InstrumentState};
use soldier_core::risk::state::RiskState;

#[test]
fn test_open_on_active_perpetual_passes() {
    let result = ExpiryGuard::check(true, None, 1000, IntentClass::Open);
    assert!(result.is_ok());
}

#[test]
fn test_open_on_active_non_expired_option_passes() {
    let expiry_ms = 2000;
    let current_ms = 1000;
    let result = ExpiryGuard::check(true, Some(expiry_ms), current_ms, IntentClass::Open);
    assert!(result.is_ok());
}

#[test]
fn test_open_on_expired_instrument_rejected() {
    let expiry_ms = 1000;
    let current_ms = 1000;
    let result = ExpiryGuard::check(true, Some(expiry_ms), current_ms, IntentClass::Open);
    let err = result.expect_err("should reject expired OPEN");
    assert_eq!(err.reason, ExpiryRejectReason::InstrumentExpiredOrDelisted);
    assert_eq!(err.risk_state, RiskState::Degraded);
}

#[test]
fn test_close_on_expired_instrument_allowed() {
    let expiry_ms = 1000;
    let current_ms = 2000;
    let result = ExpiryGuard::check(true, Some(expiry_ms), current_ms, IntentClass::Close);
    assert!(
        result.is_ok(),
        "CLOSE should be allowed on expired instruments"
    );
}

#[test]
fn test_open_on_delisted_instrument_rejected() {
    let result = ExpiryGuard::check(false, None, 1000, IntentClass::Open);
    let err = result.expect_err("should reject delisted OPEN");
    assert_eq!(err.reason, ExpiryRejectReason::InstrumentExpiredOrDelisted);
    assert_eq!(err.risk_state, RiskState::Degraded);
}

#[test]
fn test_close_on_delisted_instrument_allowed() {
    let result = ExpiryGuard::check(false, None, 1000, IntentClass::Close);
    assert!(
        result.is_ok(),
        "CLOSE should be allowed on delisted instruments"
    );
}

#[test]
fn test_buffer_rejects_near_expiry_opens() {
    let expiry_ms = 10000;
    let buffer_ms = 5000;
    let current_ms = 6000;

    let result = ExpiryGuard::check_with_buffer(
        true,
        Some(expiry_ms),
        current_ms,
        buffer_ms,
        IntentClass::Open,
    );
    let err = result.expect_err("should reject near-expiry OPEN");
    assert_eq!(err.reason, ExpiryRejectReason::InstrumentExpiredOrDelisted);
}

#[test]
fn test_buffer_allows_near_expiry_closes() {
    let expiry_ms = 10000;
    let buffer_ms = 5000;
    let current_ms = 6000;

    let result = ExpiryGuard::check_with_buffer(
        true,
        Some(expiry_ms),
        current_ms,
        buffer_ms,
        IntentClass::Close,
    );
    assert!(
        result.is_ok(),
        "CLOSE should be allowed even within expiry buffer"
    );
}

#[test]
fn test_buffer_allows_before_buffer_window() {
    let expiry_ms = 10000;
    let buffer_ms = 5000;
    let current_ms = 4000;

    let result = ExpiryGuard::check_with_buffer(
        true,
        Some(expiry_ms),
        current_ms,
        buffer_ms,
        IntentClass::Open,
    );
    assert!(result.is_ok());
}

#[test]
fn test_is_expired_or_delisted() {
    assert!(!ExpiryGuard::is_expired_or_delisted(true, Some(2000), 1000));
    assert!(ExpiryGuard::is_expired_or_delisted(true, Some(1000), 2000));
    assert!(ExpiryGuard::is_expired_or_delisted(false, None, 1000));
    assert!(!ExpiryGuard::is_expired_or_delisted(true, None, 1000));
}

#[test]
fn expiry_reason_code_text() {
    assert_eq!(
        ExpiryRejectReason::InstrumentExpiredOrDelisted.to_string(),
        "INSTRUMENT_EXPIRED_OR_DELISTED"
    );
}

#[test]
fn buffer_saturates_at_i64_min() {
    // An expiry near i64::MIN with a large buffer must not overflow.
    let result = ExpiryGuard::check_with_buffer(
        true,
        Some(i64::MIN + 10),
        i64::MIN,
        1000,
        IntentClass::Open,
    );
    assert!(result.is_err());
    let _ = InstrumentState::Active;
}
