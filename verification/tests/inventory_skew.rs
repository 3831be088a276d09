use soldier_core::risk::inventory_skew::{inventory_skew_verdict, is_risk_increasing, IntentSide, InventorySkewVerdict};
use soldier_core::risk::state::RiskState;

#[test]
fn missing_limit_is_refused_and_degraded() {
    let v = inventory_skew_verdict(false, IntentSide::Buy, false, false, false);
    assert_eq!(v, InventorySkewVerdict::DeltaLimitMissing);
    assert!(!v.allowed());
    assert_eq!(v.reject_reason(), Some("InventorySkewDeltaLimitMissing"));
    assert_eq!(v.risk_state(), RiskState::Degraded);
}

#[test]
fn buy_near_a_long_limit_is_refused_sell_is_allowed() {
    let buy = inventory_skew_verdict(true, IntentSide::Buy, true, false, true);
    assert_eq!(buy, InventorySkewVerdict::NearLimit);
    assert_eq!(buy.reject_reason(), Some("InventorySkewNearLimit"));
    assert_eq!(buy.risk_state(), RiskState::Healthy);
    let sell = inventory_skew_verdict(true, IntentSide::Sell, true, false, true);
    assert_eq!(sell, InventorySkewVerdict::Allowed);
    assert_eq!(sell.reject_reason(), None);
}

#[test]
fn risk_increasing_follows_the_bias_sign() {
    assert!(is_risk_increasing(IntentSide::Buy, true, false));
    assert!(!is_risk_increasing(IntentSide::Buy, false, true));
    assert!(is_risk_increasing(IntentSide::Sell, false, true));
    assert!(!is_risk_increasing(IntentSide::Sell, false, false));
    // away from the limit a risk-increasing intent passes
    assert_eq!(inventory_skew_verdict(true, IntentSide::Buy, true, false, false), InventorySkewVerdict::Allowed);
}
