use vstd::prelude::*;

use crate::execution::order_type_guard::{
    order_type_verdict, validate_order_type, LinkedOrderType, OrderType, OrderTypeGuardConfig,
    OrderTypeRejectReason,
};
use crate::metrics::{bump_count, bumped};
use crate::venue::types::InstrumentKind;

verus! {

#[derive(Debug, Clone, Copy, PartialEq, Eq, Structural)]
pub enum TriggerType {
    IndexPrice,
    MarkPrice,
    LastPrice,
}

#[derive(Debug, Clone, Copy, PartialEq, Eq, Structural)]
pub struct PreflightReject {
    pub reason: OrderTypeRejectReason,
}

/// Per-reason counts of preflight rejections.
pub struct PreflightMetrics {
    market_forbidden_total: u64,
    stop_forbidden_total: u64,
    linked_order_forbidden_total: u64,
}

impl PreflightMetrics {
    pub closed spec fn count(&self, reason: OrderTypeRejectReason) -> u64 {
        match reason {
            OrderTypeRejectReason::OrderTypeMarketForbidden => self.market_forbidden_total,
            OrderTypeRejectReason::OrderTypeStopForbidden => self.stop_forbidden_total,
            OrderTypeRejectReason::LinkedOrderTypeForbidden => self.linked_order_forbidden_total,
        }
    }

    pub fn new() -> (m: Self)
        ensures
            forall|r: OrderTypeRejectReason| m.count(r) == 0,
    {
        Self { market_forbidden_total: 0, stop_forbidden_total: 0, linked_order_forbidden_total: 0 }
    }

    pub fn reject_total(&self, reason: OrderTypeRejectReason) -> (r: u64)
        ensures
            r == self.count(reason),
    {
        match reason {
            OrderTypeRejectReason::OrderTypeMarketForbidden => self.market_forbidden_total,
            OrderTypeRejectReason::OrderTypeStopForbidden => self.stop_forbidden_total,
            OrderTypeRejectReason::LinkedOrderTypeForbidden => self.linked_order_forbidden_total,
        }
    }

    pub fn bump(&mut self, reason: OrderTypeRejectReason)
        ensures
            final(self).count(reason) == bumped(old(self).count(reason)),
            forall|r: OrderTypeRejectReason| r != reason ==> final(self).count(r) == old(self).count(r),
    {
        match reason {
            OrderTypeRejectReason::OrderTypeMarketForbidden => {
                self.market_forbidden_total = bump_count(self.market_forbidden_total);
            },
            OrderTypeRejectReason::OrderTypeStopForbidden => {
                self.stop_forbidden_total = bump_count(self.stop_forbidden_total);
            },
            OrderTypeRejectReason::LinkedOrderTypeForbidden => {
                self.linked_order_forbidden_total = bump_count(self.linked_order_forbidden_total);
            },
        }
    }
}

/// Preflight of an order's type: runs the order-type guard and counts a rejection by reason.
pub fn preflight_order_type(
    metrics: &mut PreflightMetrics,
    instrument_kind: InstrumentKind,
    order_type: OrderType,
    has_trigger_fields: bool,
    linked_order_type: Option<LinkedOrderType>,
    config: OrderTypeGuardConfig,
) -> (r: Result<(), PreflightReject>)
    ensures
        match order_type_verdict(instrument_kind, order_type, has_trigger_fields, linked_order_type, config) {
            Ok(()) => r is Ok && forall|x: OrderTypeRejectReason| final(metrics).count(x) == old(metrics).count(x),
            Err(reason) => r == Err::<(), PreflightReject>(PreflightReject { reason }) && final(metrics).count(reason)
                == bumped(old(metrics).count(reason)) && forall|x: OrderTypeRejectReason|
                x != reason ==> final(metrics).count(x) == old(metrics).count(x),
        },
{
    match validate_order_type(instrument_kind, order_type, has_trigger_fields, linked_order_type, config) {
        Ok(()) => Ok(()),
        Err(reason) => {
            metrics.bump(reason);
            Err(PreflightReject { reason })
        },
    }
}

} // verus!
