//! Outcomes of the margin headroom gate.

use vstd::prelude::*;

verus! {

/// Whether an OPEN passes the margin gate.
#[derive(Debug, Clone, Copy, PartialEq, Eq, Structural)]
pub enum MarginGateResult {
    /// Below the reject threshold.
    Allow,
    /// Maintenance-margin utilisation at or above the reject threshold.
    RejectOpens,
}

/// Trading-mode recommendation of the margin gate.
#[derive(Debug, Clone, Copy, PartialEq, Eq, Structural)]
pub enum MarginModeRecommendation {
    Active,
    ReduceOnly,
    Kill,
}

impl MarginModeRecommendation {
    /// The name of the recommendation, as displayed.
    pub fn to_string(&self) -> (s: String)
        ensures
            s@ == match *self {
                MarginModeRecommendation::Active => "Active"@,
                MarginModeRecommendation::ReduceOnly => "ReduceOnly"@,
                MarginModeRecommendation::Kill => "Kill"@,
            },
    {
        match self {
            MarginModeRecommendation::Active => String::from_str("Active"),
            MarginModeRecommendation::ReduceOnly => String::from_str("ReduceOnly"),
            MarginModeRecommendation::Kill => String::from_str("Kill"),
        }
    }
}

} // verus!
