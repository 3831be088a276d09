use soldier_core::venue::capabilities::{FeatureFlags, VenueCapabilities};
use soldier_core::venue::types::{DeribitInstrumentKind, DeribitSettlementPeriod, InstrumentKind};

#[test]
fn deribit_kinds_map_to_instrument_kinds() {
    assert_eq!(
        InstrumentKind::from_deribit(DeribitInstrumentKind::Option, DeribitSettlementPeriod::Week, "USD"),
        InstrumentKind::Option
    );
    assert_eq!(
        InstrumentKind::from_deribit(DeribitInstrumentKind::Future, DeribitSettlementPeriod::Perpetual, "usdc"),
        InstrumentKind::LinearFuture
    );
    assert_eq!(
        InstrumentKind::from_deribit(DeribitInstrumentKind::Future, DeribitSettlementPeriod::Perpetual, "USD"),
        InstrumentKind::Perpetual
    );
    assert_eq!(
        InstrumentKind::from_deribit(DeribitInstrumentKind::Future, DeribitSettlementPeriod::Month, "BTC"),
        InstrumentKind::InverseFuture
    );
}

#[test]
fn linked_orders_need_support_flag_and_non_option() {
    let caps = VenueCapabilities { linked_orders_supported: true };
    let on = FeatureFlags { enable_linked_orders_for_bot: true };
    assert!(caps.linked_orders_supported_for(InstrumentKind::Perpetual, on));
    assert!(!caps.linked_orders_supported_for(InstrumentKind::Option, on));
    assert!(!caps.linked_orders_supported_for(InstrumentKind::Perpetual, FeatureFlags::default()));
    assert!(!VenueCapabilities::default().linked_orders_supported_for(InstrumentKind::Perpetual, on));
}
