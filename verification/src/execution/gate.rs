use vstd::prelude::*;

use crate::metrics::{bump_count, bumped};

verus! {

#[derive(Debug, Clone, Copy, PartialEq, Eq, Structural)]
pub enum LiquidityGateRejectReason {
    ExpectedSlippageTooHigh,
    LiquidityGateNoL2,
}

/// Counters of the liquidity gate: expected-slippage samples and rejections by reason.
pub struct LiquidityGateMetrics {
    expected_slippage_samples: u64,
    reject_expected_slippage_total: u64,
    reject_no_l2_total: u64,
}

impl LiquidityGateMetrics {
    pub closed spec fn rejects(&self, reason: LiquidityGateRejectReason) -> u64 {
        match reason {
            LiquidityGateRejectReason::ExpectedSlippageTooHigh => self.reject_expected_slippage_total,
            LiquidityGateRejectReason::LiquidityGateNoL2 => self.reject_no_l2_total,
        }
    }

    pub closed spec fn samples(&self) -> u64 {
        self.expected_slippage_samples
    }

    pub fn new() -> (m: Self)
        ensures
            m.samples() == 0,
            forall|r: LiquidityGateRejectReason| m.rejects(r) == 0,
    {
        Self { expected_slippage_samples: 0, reject_expected_slippage_total: 0, reject_no_l2_total: 0 }
    }

    pub fn reject_total(&self, reason: LiquidityGateRejectReason) -> (r: u64)
        ensures
            r == self.rejects(reason),
    {
        match reason {
            LiquidityGateRejectReason::ExpectedSlippageTooHigh => self.reject_expected_slippage_total,
            LiquidityGateRejectReason::LiquidityGateNoL2 => self.reject_no_l2_total,
        }
    }

    pub fn expected_slippage_samples(&self) -> (r: u64)
        ensures
            r == self.samples(),
    {
        self.expected_slippage_samples
    }

    pub fn bump_reject(&mut self, reason: LiquidityGateRejectReason)
        ensures
            final(self).rejects(reason) == bumped(old(self).rejects(reason)),
            forall|r: LiquidityGateRejectReason| r != reason ==> final(self).rejects(r) == old(self).rejects(r),
            final(self).samples() == old(self).samples(),
    {
        match reason {
            LiquidityGateRejectReason::ExpectedSlippageTooHigh => {
                self.reject_expected_slippage_total = bump_count(self.reject_expected_slippage_total);
            },
            LiquidityGateRejectReason::LiquidityGateNoL2 => {
                self.reject_no_l2_total = bump_count(self.reject_no_l2_total);
            },
        }
    }

    pub fn record_expected_slippage(&mut self)
        ensures
            final(self).samples() == bumped(old(self).samples()),
            forall|r: LiquidityGateRejectReason| final(self).rejects(r) == old(self).rejects(r),
    {
        self.expected_slippage_samples = bump_count(self.expected_slippage_samples);
    }
}

impl Default for LiquidityGateMetrics {
    fn default() -> (m: Self)
        ensures
            m.samples() == 0,
            forall|r: LiquidityGateRejectReason| m.rejects(r) == 0,
    {
        Self::new()
    }
}

/// A snapshot taken at `ts_ms` is fresh at `now_ms` when it is not from the future and at
/// most `max_age_ms` old.
pub fn is_fresh(now_ms: u64, ts_ms: u64, max_age_ms: u64) -> (r: bool)
    ensures
        r == (now_ms >= ts_ms && now_ms - ts_ms <= max_age_ms),
{
    if now_ms < ts_ms {
        return false;
    }
    now_ms - ts_ms <= max_age_ms
}

} // verus!
