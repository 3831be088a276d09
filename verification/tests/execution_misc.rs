use soldier_core::execution::dispatch_map::{reduce_only_from_intent_classification, IntentClassification};
use soldier_core::execution::group::{AtomicGroup, GroupFailure, GroupState};
use soldier_core::execution::intent::{IntentAction, IntentClass};
use soldier_core::execution::order_type_guard::{
    validate_order_type, LinkedOrderType, OrderType, OrderTypeGuardConfig, OrderTypeRejectReason,
};
use soldier_core::execution::preflight::{preflight_order_type, PreflightMetrics};
use soldier_core::venue::types::InstrumentKind;

#[test]
fn group_follows_the_containment_path() {
    let mut g = AtomicGroup::new("g1");
    assert_eq!(g.group_id(), "g1");
    assert_eq!(g.state(), GroupState::New);
    assert!(g.transition_to(GroupState::Dispatched).is_ok());
    let err = g.transition_to(GroupState::Flattened).unwrap_err();
    assert_eq!(err.message, "illegal group transition: Dispatched -> Flattened");
    assert_eq!(g.state(), GroupState::Dispatched);
    g.seed_first_failure(GroupFailure::Rejected);
    g.seed_first_failure(GroupFailure::Canceled);
    assert_eq!(g.first_failure(), Some(GroupFailure::Rejected));
    assert!(g.transition_to(GroupState::MixedFailed).is_ok());
    assert!(!g.state().allows_open());
    assert!(g.transition_to(GroupState::Flattening).is_ok());
    assert!(g.transition_to(GroupState::Flattened).is_ok());
    assert!(g.state().is_terminal());
    assert!(g.transition_to(GroupState::Dispatched).is_err());
}

#[test]
fn intent_classes() {
    assert_eq!(IntentClass::from_action(IntentAction::Place, Some(true)), IntentClass::Close);
    assert_eq!(IntentClass::from_action(IntentAction::Place, None), IntentClass::Open);
    assert_eq!(IntentClass::from_action(IntentAction::Hedge, None), IntentClass::Close);
    assert_eq!(IntentClass::from_action(IntentAction::Cancel, Some(false)), IntentClass::Cancel);
    assert_eq!(reduce_only_from_intent_classification(IntentClassification::Close), Some(true));
    assert_eq!(reduce_only_from_intent_classification(IntentClassification::Open), None);
}

#[test]
fn order_type_guard_refuses_market_stop_and_linked() {
    let cfg = OrderTypeGuardConfig::default();
    assert_eq!(validate_order_type(InstrumentKind::Perpetual, OrderType::Limit, false, None, cfg), Ok(()));
    assert_eq!(
        validate_order_type(InstrumentKind::Perpetual, OrderType::Market, false, None, cfg),
        Err(OrderTypeRejectReason::OrderTypeMarketForbidden)
    );
    assert_eq!(
        validate_order_type(InstrumentKind::Perpetual, OrderType::StopLimit, true, None, cfg),
        Err(OrderTypeRejectReason::OrderTypeStopForbidden)
    );
    assert_eq!(
        validate_order_type(InstrumentKind::Perpetual, OrderType::Limit, false, Some(LinkedOrderType::Oco), cfg),
        Err(OrderTypeRejectReason::LinkedOrderTypeForbidden)
    );
    let linked_ok = OrderTypeGuardConfig { linked_orders_supported: true, enable_linked_orders_for_bot: true };
    assert_eq!(
        validate_order_type(InstrumentKind::Perpetual, OrderType::Limit, false, Some(LinkedOrderType::Oco), linked_ok),
        Ok(())
    );
    assert_eq!(
        validate_order_type(InstrumentKind::Option, OrderType::Limit, false, Some(LinkedOrderType::Oco), linked_ok),
        Err(OrderTypeRejectReason::LinkedOrderTypeForbidden)
    );
}

#[test]
fn preflight_counts_rejections_by_reason() {
    let mut m = PreflightMetrics::new();
    let cfg = OrderTypeGuardConfig::default();
    assert!(preflight_order_type(&mut m, InstrumentKind::Option, OrderType::Market, false, None, cfg).is_err());
    assert!(preflight_order_type(&mut m, InstrumentKind::Option, OrderType::Limit, false, None, cfg).is_ok());
    assert_eq!(m.reject_total(OrderTypeRejectReason::OrderTypeMarketForbidden), 1);
    assert_eq!(m.reject_total(OrderTypeRejectReason::OrderTypeStopForbidden), 0);
}
