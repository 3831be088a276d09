//! The inventory-skew gate's decision: opens that would push inventory further toward
//! a delta limit it is already near are refused, and a missing limit fails closed.
//! The bias itself (total delta over the limit) and the tick penalty are computed on
//! floating-point deltas where the reading is taken; the decision reads only their signs.

use vstd::prelude::*;

use crate::risk::state::RiskState;

verus! {

#[derive(Debug, Clone, Copy, PartialEq, Eq, Structural)]
pub enum IntentSide {
    Buy,
    Sell,
}

/// The verdict on one intent.
#[derive(Debug, Clone, Copy, PartialEq, Eq, Structural)]
pub enum InventorySkewVerdict {
    /// No usable delta limit: refused, Degraded.
    DeltaLimitMissing,
    /// A risk-increasing intent near the limit: refused.
    NearLimit,
    /// Allowed; the tick penalty applies.
    Allowed,
}

/// A buy raises delta and a sell lowers it, so an intent is risk-increasing when it
/// moves delta the way the inventory bias already points.
pub open spec fn risk_increasing_spec(side: IntentSide, bias_positive: bool, bias_negative: bool) -> bool {
    match side {
        IntentSide::Buy => bias_positive,
        IntentSide::Sell => bias_negative,
    }
}

pub fn is_risk_increasing(side: IntentSide, bias_positive: bool, bias_negative: bool) -> (r: bool)
    ensures
        r == risk_increasing_spec(side, bias_positive, bias_negative),
{
    match side {
        IntentSide::Buy => bias_positive,
        IntentSide::Sell => bias_negative,
    }
}

pub open spec fn inventory_skew_spec(
    limit_present: bool,
    side: IntentSide,
    bias_positive: bool,
    bias_negative: bool,
    near_limit: bool,
) -> InventorySkewVerdict {
    if !limit_present {
        InventorySkewVerdict::DeltaLimitMissing
    } else if risk_increasing_spec(side, bias_positive, bias_negative) && near_limit {
        InventorySkewVerdict::NearLimit
    } else {
        InventorySkewVerdict::Allowed
    }
}

/// The verdict from whether a usable delta limit is set, the intent's side, the sign
/// of the inventory bias and whether total delta is near the limit.
pub fn inventory_skew_verdict(
    limit_present: bool,
    side: IntentSide,
    bias_positive: bool,
    bias_negative: bool,
    near_limit: bool,
) -> (v: InventorySkewVerdict)
    ensures
        v == inventory_skew_spec(limit_present, side, bias_positive, bias_negative, near_limit),
{
    if !limit_present {
        InventorySkewVerdict::DeltaLimitMissing
    } else if is_risk_increasing(side, bias_positive, bias_negative) && near_limit {
        InventorySkewVerdict::NearLimit
    } else {
        InventorySkewVerdict::Allowed
    }
}

impl InventorySkewVerdict {
    pub fn allowed(self) -> (r: bool)
        ensures
            r == (self == InventorySkewVerdict::Allowed),
    {
        matches!(self, InventorySkewVerdict::Allowed)
    }

    pub fn reject_reason(self) -> (r: Option<&'static str>)
        ensures
            match self {
                InventorySkewVerdict::DeltaLimitMissing => r matches Some(s) && s@
                    == "InventorySkewDeltaLimitMissing"@,
                InventorySkewVerdict::NearLimit => r matches Some(s) && s@ == "InventorySkewNearLimit"@,
                InventorySkewVerdict::Allowed => r is None,
            },
    {
        match self {
            InventorySkewVerdict::DeltaLimitMissing => Some("InventorySkewDeltaLimitMissing"),
            InventorySkewVerdict::NearLimit => Some("InventorySkewNearLimit"),
            InventorySkewVerdict::Allowed => None,
        }
    }

    pub fn risk_state(self) -> (r: RiskState)
        ensures
            r == (if self == InventorySkewVerdict::DeltaLimitMissing {
                RiskState::Degraded
            } else {
                RiskState::Healthy
            }),
    {
        match self {
            InventorySkewVerdict::DeltaLimitMissing => RiskState::Degraded,
            _ => RiskState::Healthy,
        }
    }
}

/// Law (risk-reducing intents pass): with a usable limit, an intent that moves delta
/// against the inventory bias is never refused, however near the limit.
pub proof fn lemma_risk_reducing_allowed(side: IntentSide, bias_positive: bool, bias_negative: bool, near_limit: bool)
    requires
        !risk_increasing_spec(side, bias_positive, bias_negative),
    ensures
        inventory_skew_spec(true, side, bias_positive, bias_negative, near_limit)
            == InventorySkewVerdict::Allowed,
{
}

/// Law (refusals): without a usable limit every intent is refused as DeltaLimitMissing;
/// with one, near the limit a buy on long inventory and a sell on short inventory are
/// both refused as NearLimit, and everything else is allowed.
pub proof fn lemma_skew_refusals(
    limit_present: bool,
    side: IntentSide,
    bias_positive: bool,
    bias_negative: bool,
    near_limit: bool,
)
    ensures
        ({
            let v = inventory_skew_spec(limit_present, side, bias_positive, bias_negative, near_limit);
            let pushes_further = (side == IntentSide::Buy && bias_positive) || (side == IntentSide::Sell
                && bias_negative);
            &&& !limit_present ==> v == InventorySkewVerdict::DeltaLimitMissing
            &&& (limit_present && near_limit && pushes_further) ==> v == InventorySkewVerdict::NearLimit
            &&& (limit_present && !(near_limit && pushes_further)) ==> v == InventorySkewVerdict::Allowed
        }),
{
}

/// Law (symmetry): the long and the short limit are treated alike: a buy with the bias
/// one way gets the verdict of a sell with the bias the other way.
pub proof fn lemma_skew_symmetric(limit_present: bool, bias_positive: bool, bias_negative: bool, near_limit: bool)
    ensures
        inventory_skew_spec(limit_present, IntentSide::Buy, bias_positive, bias_negative, near_limit)
            == inventory_skew_spec(limit_present, IntentSide::Sell, bias_negative, bias_positive, near_limit),
{
}

} // verus!
