use vstd::prelude::*;

use crate::venue::types::InstrumentKind;

verus! {

#[derive(Debug, Clone, Copy, PartialEq, Eq, Structural)]
pub enum OrderType {
    Limit,
    Market,
    StopMarket,
    StopLimit,
}

#[derive(Debug, Clone, Copy, PartialEq, Eq, Structural)]
pub enum LinkedOrderType {
    Oco,
}

#[derive(Debug, Clone, Copy, PartialEq, Eq, Structural)]
pub enum OrderTypeRejectReason {
    OrderTypeMarketForbidden,
    OrderTypeStopForbidden,
    LinkedOrderTypeForbidden,
}

#[derive(Debug, Clone, Copy, PartialEq, Eq, Structural)]
pub struct OrderTypeGuardConfig {
    pub linked_orders_supported: bool,
    pub enable_linked_orders_for_bot: bool,
}

impl Default for OrderTypeGuardConfig {
    /// Both linked orders flags off.
    fn default() -> (c: Self)
        ensures
            !c.linked_orders_supported,
            !c.enable_linked_orders_for_bot,
    {
        Self { linked_orders_supported: false, enable_linked_orders_for_bot: false }
    }
}

impl OrderTypeGuardConfig {
    fn linked_orders_allowed(self) -> (r: bool)
        ensures
            r == (self.linked_orders_supported && self.enable_linked_orders_for_bot),
    {
        self.linked_orders_supported && self.enable_linked_orders_for_bot
    }
}

/// The verdict of the order-type guard: linked orders first, then market, then stop orders.
pub open spec fn order_type_verdict(
    instrument_kind: InstrumentKind,
    order_type: OrderType,
    has_trigger_fields: bool,
    linked_order_type: Option<LinkedOrderType>,
    config: OrderTypeGuardConfig,
) -> Result<(), OrderTypeRejectReason> {
    let linked_allowed = instrument_kind != InstrumentKind::Option
        && config.linked_orders_supported && config.enable_linked_orders_for_bot;
    if linked_order_type is Some && !linked_allowed {
        Err(OrderTypeRejectReason::LinkedOrderTypeForbidden)
    } else if order_type == OrderType::Market {
        Err(OrderTypeRejectReason::OrderTypeMarketForbidden)
    } else if order_type == OrderType::StopMarket || order_type == OrderType::StopLimit {
        Err(OrderTypeRejectReason::OrderTypeStopForbidden)
    } else if instrument_kind == InstrumentKind::Option && has_trigger_fields {
        Err(OrderTypeRejectReason::OrderTypeStopForbidden)
    } else {
        Ok(())
    }
}

pub fn validate_order_type(
    instrument_kind: InstrumentKind,
    order_type: OrderType,
    has_trigger_fields: bool,
    linked_order_type: Option<LinkedOrderType>,
    config: OrderTypeGuardConfig,
) -> (r: Result<(), OrderTypeRejectReason>)
    ensures
        r == order_type_verdict(instrument_kind, order_type, has_trigger_fields, linked_order_type, config),
{
    if linked_order_type.is_some() {
        let allow_linked = match instrument_kind {
            InstrumentKind::Option => false,
            InstrumentKind::LinearFuture
            | InstrumentKind::InverseFuture
            | InstrumentKind::Perpetual => config.linked_orders_allowed(),
        };
        if !allow_linked {
            return Err(OrderTypeRejectReason::LinkedOrderTypeForbidden);
        }
    }
    match instrument_kind {
        InstrumentKind::Option => {
            if order_type == OrderType::Market {
                return Err(OrderTypeRejectReason::OrderTypeMarketForbidden);
            }
            if matches!(order_type, OrderType::StopMarket | OrderType::StopLimit) {
                return Err(OrderTypeRejectReason::OrderTypeStopForbidden);
            }
            if has_trigger_fields {
                return Err(OrderTypeRejectReason::OrderTypeStopForbidden);
            }
        },
        InstrumentKind::LinearFuture
        | InstrumentKind::InverseFuture
        | InstrumentKind::Perpetual => {
            if order_type == OrderType::Market {
                return Err(OrderTypeRejectReason::OrderTypeMarketForbidden);
            }
            if matches!(order_type, OrderType::StopMarket | OrderType::StopLimit) {
                return Err(OrderTypeRejectReason::OrderTypeStopForbidden);
            }
        },
    }
    Ok(())
}

/// Only limit orders ever pass the order-type guard.
pub proof fn lemma_only_limit_orders_pass(
    instrument_kind: InstrumentKind,
    order_type: OrderType,
    has_trigger_fields: bool,
    linked_order_type: Option<LinkedOrderType>,
    config: OrderTypeGuardConfig,
)
    requires
        order_type_verdict(instrument_kind, order_type, has_trigger_fields, linked_order_type, config) is Ok,
    ensures
        order_type == OrderType::Limit,
        instrument_kind == InstrumentKind::Option ==> !has_trigger_fields && linked_order_type is None,
{
}

} // verus!
