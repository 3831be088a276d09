use vstd::prelude::*;

use crate::execution::dispatch_map::DispatchRejectReason;
use crate::execution::order_type_guard::OrderTypeRejectReason;
use crate::execution::post_only_guard::PostOnlyRejectReason;

verus! {

#[derive(Debug, Clone, Copy, PartialEq, Eq, Structural)]
pub enum RejectReason {
    UnitMismatch,
    NetEdgeTooLow,
}

impl From<DispatchRejectReason> for RejectReason {
    fn from(reason: DispatchRejectReason) -> (r: Self)
        ensures
            r == RejectReason::UnitMismatch,
    {
        match reason {
            DispatchRejectReason::UnitMismatch => RejectReason::UnitMismatch,
        }
    }
}

impl vstd::std_specs::convert::FromSpecImpl<DispatchRejectReason> for RejectReason {
    open spec fn obeys_from_spec() -> bool {
        true
    }

    open spec fn from_spec(reason: DispatchRejectReason) -> Self {
        RejectReason::UnitMismatch
    }
}

#[derive(Debug, Clone, Copy, PartialEq, Eq, Structural)]
pub enum PreflightGuardRejectReason {
    OrderType(OrderTypeRejectReason),
    PostOnly(PostOnlyRejectReason),
}

#[derive(Debug, Clone, Copy, PartialEq, Eq, Structural)]
pub struct PreflightGuardReject {
    pub reason: PreflightGuardRejectReason,
}

} // verus!
