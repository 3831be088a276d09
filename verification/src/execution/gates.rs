use vstd::prelude::*;

use crate::metrics::{bump_count, bumped};

verus! {

#[derive(Debug, Clone, Copy, PartialEq, Eq, Structural)]
pub enum NetEdgeRejectReason {
    NetEdgeTooLow,
    NetEdgeInputMissing,
}

/// Rejections of the net-edge gate by reason.
pub struct NetEdgeGateMetrics {
    reject_too_low_total: u64,
    reject_input_missing_total: u64,
}

impl NetEdgeGateMetrics {
    pub closed spec fn rejects(&self, reason: NetEdgeRejectReason) -> u64 {
        match reason {
            NetEdgeRejectReason::NetEdgeTooLow => self.reject_too_low_total,
            NetEdgeRejectReason::NetEdgeInputMissing => self.reject_input_missing_total,
        }
    }

    pub fn new() -> (m: Self)
        ensures
            forall|r: NetEdgeRejectReason| m.rejects(r) == 0,
    {
        Self { reject_too_low_total: 0, reject_input_missing_total: 0 }
    }

    pub fn reject_total(&self, reason: NetEdgeRejectReason) -> (r: u64)
        ensures
            r == self.rejects(reason),
    {
        match reason {
            NetEdgeRejectReason::NetEdgeTooLow => self.reject_too_low_total,
            NetEdgeRejectReason::NetEdgeInputMissing => self.reject_input_missing_total,
        }
    }

    pub fn bump_reject(&mut self, reason: NetEdgeRejectReason)
        ensures
            final(self).rejects(reason) == bumped(old(self).rejects(reason)),
            forall|r: NetEdgeRejectReason| r != reason ==> final(self).rejects(r) == old(self).rejects(r),
    {
        match reason {
            NetEdgeRejectReason::NetEdgeTooLow => {
                self.reject_too_low_total = bump_count(self.reject_too_low_total);
            },
            NetEdgeRejectReason::NetEdgeInputMissing => {
                self.reject_input_missing_total = bump_count(self.reject_input_missing_total);
            },
        }
    }
}

impl Default for NetEdgeGateMetrics {
    fn default() -> (m: Self)
        ensures
            forall|r: NetEdgeRejectReason| m.rejects(r) == 0,
    {
        Self::new()
    }
}

} // verus!
