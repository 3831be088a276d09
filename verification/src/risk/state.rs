use vstd::prelude::*;

verus! {

/// Health of the trading system as seen by the risk layer.
#[derive(Debug, Clone, Copy, PartialEq, Eq, Structural)]
pub enum RiskState {
    Healthy,
    Degraded,
    Maintenance,
    Kill,
}

/// What kinds of orders may currently be sent.
#[derive(Debug, Clone, Copy, PartialEq, Eq, Structural)]
pub enum TradingMode {
    Active,
    ReduceOnly,
    Kill,
}

impl TradingMode {
    /// Opens are allowed only in `Active` mode.
    pub fn allows_open(self) -> (r: bool)
        ensures
            r == (self == TradingMode::Active),
    {
        matches!(self, TradingMode::Active)
    }

    /// Closes are allowed in every mode but `Kill`.
    pub fn allows_close(self) -> (r: bool)
        ensures
            r == (self != TradingMode::Kill),
    {
        !matches!(self, TradingMode::Kill)
    }

    /// Hedges follow the close rule.
    pub fn allows_hedge(self) -> (r: bool)
        ensures
            r == (self != TradingMode::Kill),
    {
        self.allows_close()
    }

    /// Cancels follow the close rule.
    pub fn allows_cancel(self) -> (r: bool)
        ensures
            r == (self != TradingMode::Kill),
    {
        self.allows_close()
    }
}

/// The trading mode a risk state forces.
pub open spec fn mode_for_risk_state(risk_state: RiskState) -> TradingMode {
    match risk_state {
        RiskState::Kill => TradingMode::Kill,
        RiskState::Degraded | RiskState::Maintenance => TradingMode::ReduceOnly,
        RiskState::Healthy => TradingMode::Active,
    }
}

/// Maps the risk layer's state to a trading mode.
pub struct PolicyGuard;

impl PolicyGuard {
    pub fn get_effective_mode(risk_state: RiskState) -> (mode: TradingMode)
        ensures
            mode == mode_for_risk_state(risk_state),
    {
        match risk_state {
            RiskState::Kill => TradingMode::Kill,
            RiskState::Degraded | RiskState::Maintenance => TradingMode::ReduceOnly,
            RiskState::Healthy => TradingMode::Active,
        }
    }
}

/// Only a healthy risk state permits opens, and closes are refused only under `Kill`.
pub proof fn lemma_effective_mode_gates_opens(risk_state: RiskState)
    ensures
        (mode_for_risk_state(risk_state) == TradingMode::Active) <==> (risk_state == RiskState::Healthy),
        (mode_for_risk_state(risk_state) == TradingMode::Kill) <==> (risk_state == RiskState::Kill),
{
}

} // verus!
