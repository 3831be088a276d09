use vstd::prelude::*;

use crate::metrics::{bump_count, bumped};

verus! {

/// Count of orders refused for a unit mismatch.
pub struct DispatchMetrics {
    unit_mismatch_total: u64,
}

impl DispatchMetrics {
    pub closed spec fn mismatches(&self) -> u64 {
        self.unit_mismatch_total
    }

    pub fn new() -> (m: Self)
        ensures
            m.mismatches() == 0,
    {
        Self { unit_mismatch_total: 0 }
    }

    pub fn unit_mismatch_total(&self) -> (r: u64)
        ensures
            r == self.mismatches(),
    {
        self.unit_mismatch_total
    }

    /// Counts one unit-mismatch rejection.
    pub fn record_unit_mismatch(&mut self)
        ensures
            final(self).mismatches() == bumped(old(self).mismatches()),
    {
        self.unit_mismatch_total = bump_count(self.unit_mismatch_total);
    }
}

impl Default for DispatchMetrics {
    fn default() -> (m: Self)
        ensures
            m.mismatches() == 0,
    {
        Self::new()
    }
}

#[derive(Debug, Clone, Copy, PartialEq, Eq, Structural)]
pub enum DispatchRejectReason {
    UnitMismatch,
}

#[derive(Debug, Clone, Copy, PartialEq, Eq, Structural)]
pub enum IntentClassification {
    Open,
    Close,
    Hedge,
    Cancel,
}

/// Closes and hedges are sent reduce-only; opens and cancels carry no flag.
pub fn reduce_only_from_intent_classification(classification: IntentClassification) -> (r: Option<bool>)
    ensures
        r == (if classification == IntentClassification::Close || classification
            == IntentClassification::Hedge {
            Some(true)
        } else {
            None::<bool>
        }),
{
    match classification {
        IntentClassification::Close | IntentClassification::Hedge => Some(true),
        IntentClassification::Open | IntentClassification::Cancel => None,
    }
}

} // verus!
