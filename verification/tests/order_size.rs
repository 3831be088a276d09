use soldier_core::execution::order_size::{
    canonical_unit, check_amount_mapping, check_order_size, OrderSizeError, SizeUnit, UnitMismatch,
};
use soldier_core::venue::types::InstrumentKind;

#[test]
fn coin_sized_and_usd_sized_kinds() {
    assert_eq!(canonical_unit(InstrumentKind::Option), SizeUnit::Coin);
    assert_eq!(canonical_unit(InstrumentKind::LinearFuture), SizeUnit::Coin);
    assert_eq!(canonical_unit(InstrumentKind::Perpetual), SizeUnit::Usd);
    assert_eq!(canonical_unit(InstrumentKind::InverseFuture), SizeUnit::Usd);
}

#[test]
fn order_size_refuses_both_quantities_first() {
    assert_eq!(check_order_size(InstrumentKind::Option, true, true, false), Err(OrderSizeError::BothCanonical));
}

#[test]
fn order_size_needs_the_canonical_quantity() {
    assert_eq!(check_order_size(InstrumentKind::Option, false, true, true), Err(OrderSizeError::MissingCanonical));
    assert_eq!(check_order_size(InstrumentKind::Perpetual, true, false, true), Err(OrderSizeError::MissingCanonical));
}

#[test]
fn coin_sized_order_needs_a_positive_index_price() {
    assert_eq!(check_order_size(InstrumentKind::LinearFuture, true, false, false), Err(OrderSizeError::InvalidIndexPrice));
    assert_eq!(check_order_size(InstrumentKind::LinearFuture, true, false, true), Ok(SizeUnit::Coin));
    // a USD-sized order does not look at the index price
    assert_eq!(check_order_size(InstrumentKind::InverseFuture, false, true, false), Ok(SizeUnit::Usd));
}

#[test]
fn amount_mapping_checks_in_order() {
    assert_eq!(check_amount_mapping(InstrumentKind::Perpetual, true, true, false, false, false), Err(UnitMismatch::BothQty));
    assert_eq!(check_amount_mapping(InstrumentKind::Perpetual, false, false, false, false, false), Err(UnitMismatch::InvalidIndexPrice));
    assert_eq!(check_amount_mapping(InstrumentKind::Perpetual, false, false, true, false, false), Err(UnitMismatch::MissingCanonical));
    assert_eq!(check_amount_mapping(InstrumentKind::Option, true, false, false, true, false), Err(UnitMismatch::MissingMultiplierForValidation));
    assert_eq!(check_amount_mapping(InstrumentKind::Option, true, false, false, true, true), Ok(SizeUnit::Coin));
    assert_eq!(check_amount_mapping(InstrumentKind::Perpetual, false, true, true, false, false), Ok(SizeUnit::Usd));
}

#[test]
fn unit_mismatch_reasons_read_as_snake_case() {
    assert_eq!(UnitMismatch::BothQty.as_str(), "both_qty");
    assert_eq!(UnitMismatch::MissingMultiplierForValidation.as_str(), "missing_multiplier_for_validation");
    assert_eq!(UnitMismatch::ContractsMismatch.as_str(), "contracts_mismatch");
}
