use vstd::prelude::*;

use crate::metrics::{bump_count, bumped};
use crate::risk::state::RiskState;
use crate::text::str_eq;

verus! {

/// Name of the counter bumped when an open is refused for an unhealthy risk state.
pub const COUNTER_SEQUENCER_ORDER_VIOLATION: &'static str = "sequencer_order_violation_total";

#[derive(Debug, Clone, Copy, PartialEq, Eq, Structural)]
pub enum IntentKind {
    Open,
    Close,
    Repair,
}

#[derive(Debug, Clone, PartialEq)]
pub enum ExecutionStep {
    PlaceClose { leg_id: String },
    ConfirmClose { leg_id: String },
    PlaceHedge { leg_id: String, reduce_only: bool },
    PlaceOpen { leg_id: String },
    ConfirmOpen { leg_id: String },
    FlattenViaEmergencyClose { group_id: String },
}

#[derive(Debug, Clone, PartialEq)]
pub enum SequenceError {
    EmptyLegList,
    RiskStateNotHealthy { risk_state: RiskState },
}

/// The final hedge step: on the `hedge_leg`, reduce-only as given.
pub open spec fn is_hedge_step(step: ExecutionStep, reduce_only: bool) -> bool {
    step matches ExecutionStep::PlaceHedge { leg_id, reduce_only: ro } && leg_id@ == "hedge_leg"@
        && ro == reduce_only
}

/// Close: place every leg's close, then confirm each, then one reduce-only hedge.
pub open spec fn close_steps_ok(legs: Seq<String>, steps: Seq<ExecutionStep>) -> bool {
    let n = legs.len() as int;
    &&& steps.len() == 2 * n + 1
    &&& forall|i: int| 0 <= i < n ==> steps[i] == (ExecutionStep::PlaceClose { leg_id: #[trigger] legs[i] })
    &&& forall|i: int| 0 <= i < n ==> steps[n + i] == (ExecutionStep::ConfirmClose { leg_id: #[trigger] legs[i] })
    &&& is_hedge_step(steps[2 * n], true)
}

/// Open: place every leg, then confirm each, then one hedge that is not reduce-only.
pub open spec fn open_steps_ok(legs: Seq<String>, steps: Seq<ExecutionStep>) -> bool {
    let n = legs.len() as int;
    &&& steps.len() == 2 * n + 1
    &&& forall|i: int| 0 <= i < n ==> steps[i] == (ExecutionStep::PlaceOpen { leg_id: #[trigger] legs[i] })
    &&& forall|i: int| 0 <= i < n ==> steps[n + i] == (ExecutionStep::ConfirmOpen { leg_id: #[trigger] legs[i] })
    &&& is_hedge_step(steps[2 * n], false)
}

/// Repair: flatten every leg through emergency close, then one reduce-only hedge.
pub open spec fn repair_steps_ok(legs: Seq<String>, steps: Seq<ExecutionStep>) -> bool {
    let n = legs.len() as int;
    &&& steps.len() == n + 1
    &&& forall|i: int| 0 <= i < n ==> steps[i] == (ExecutionStep::FlattenViaEmergencyClose { group_id: #[trigger] legs[i] })
    &&& is_hedge_step(steps[n], true)
}

/// Position-aware execution sequencer; counts refused opens.
pub struct Sequencer {
    order_violation_total: u64,
}

fn hedge_step(reduce_only: bool) -> (s: ExecutionStep)
    ensures
        is_hedge_step(s, reduce_only),
{
    ExecutionStep::PlaceHedge { leg_id: String::from_str("hedge_leg"), reduce_only }
}

impl Sequencer {
    pub closed spec fn violations(&self) -> u64 {
        self.order_violation_total
    }

    pub fn new() -> (s: Self)
        ensures
            s.violations() == 0,
    {
        Self { order_violation_total: 0 }
    }

    /// Ordered execution steps for an intent; opens are refused unless the risk state is healthy.
    pub fn generate_steps(
        &mut self,
        intent_kind: IntentKind,
        risk_state: RiskState,
        leg_ids: &[String],
    ) -> (r: Result<Vec<ExecutionStep>, SequenceError>)
        ensures
            intent_kind == IntentKind::Open && risk_state != RiskState::Healthy ==> (r == Err::<
                Vec<ExecutionStep>,
                SequenceError,
            >(SequenceError::RiskStateNotHealthy { risk_state })
                && final(self).violations() == bumped(old(self).violations())),
            !(intent_kind == IntentKind::Open && risk_state != RiskState::Healthy) ==> final(self).violations()
                == old(self).violations(),
            !(intent_kind == IntentKind::Open && risk_state != RiskState::Healthy) && leg_ids@.len() == 0 ==> r
                == Err::<Vec<ExecutionStep>, SequenceError>(SequenceError::EmptyLegList),
            !(intent_kind == IntentKind::Open && risk_state != RiskState::Healthy) && leg_ids@.len() > 0 ==> (r matches Ok(
                steps,
            ) && match intent_kind {
                IntentKind::Close => close_steps_ok(leg_ids@, steps@),
                IntentKind::Open => open_steps_ok(leg_ids@, steps@),
                IntentKind::Repair => repair_steps_ok(leg_ids@, steps@),
            }),
    {
        match intent_kind {
            IntentKind::Close => Self::generate_close_steps(leg_ids),
            IntentKind::Open => self.generate_open_steps(risk_state, leg_ids),
            IntentKind::Repair => Self::generate_repair_steps(leg_ids),
        }
    }

    fn generate_close_steps(leg_ids: &[String]) -> (r: Result<Vec<ExecutionStep>, SequenceError>)
        ensures
            leg_ids@.len() == 0 ==> r == Err::<Vec<ExecutionStep>, SequenceError>(SequenceError::EmptyLegList),
            leg_ids@.len() > 0 ==> (r matches Ok(steps) && close_steps_ok(leg_ids@, steps@)),
    {
        if leg_ids.len() == 0 {
            return Err(SequenceError::EmptyLegList);
        }
        let n = leg_ids.len();
        let mut steps: Vec<ExecutionStep> = Vec::new();
        let mut i: usize = 0;
        while i < n
            invariant
                n == leg_ids@.len(),
                i <= n,
                steps@.len() == i,
                forall|j: int| 0 <= j < i ==> steps@[j] == (ExecutionStep::PlaceClose { leg_id: #[trigger] leg_ids@[j] }),
            decreases n - i,
        {
            steps.push(ExecutionStep::PlaceClose { leg_id: leg_ids[i].clone() });
            i = i + 1;
        }
        let mut k: usize = 0;
        while k < n
            invariant
                n == leg_ids@.len(),
                k <= n,
                steps@.len() == n + k,
                forall|j: int| 0 <= j < n ==> steps@[j] == (ExecutionStep::PlaceClose { leg_id: #[trigger] leg_ids@[j] }),
                forall|j: int| 0 <= j < k ==> steps@[n + j] == (ExecutionStep::ConfirmClose { leg_id: #[trigger] leg_ids@[j] }),
            decreases n - k,
        {
            steps.push(ExecutionStep::ConfirmClose { leg_id: leg_ids[k].clone() });
            k = k + 1;
        }
        steps.push(hedge_step(true));
        Ok(steps)
    }

    fn generate_open_steps(&mut self, risk_state: RiskState, leg_ids: &[String]) -> (r: Result<Vec<ExecutionStep>, SequenceError>)
        ensures
            risk_state != RiskState::Healthy ==> (r == Err::<Vec<ExecutionStep>, SequenceError>(
                SequenceError::RiskStateNotHealthy { risk_state },
            ) && final(self).violations() == bumped(old(self).violations())),
            risk_state == RiskState::Healthy ==> final(self).violations() == old(self).violations(),
            risk_state == RiskState::Healthy && leg_ids@.len() == 0 ==> r == Err::<Vec<ExecutionStep>, SequenceError>(
                SequenceError::EmptyLegList,
            ),
            risk_state == RiskState::Healthy && leg_ids@.len() > 0 ==> (r matches Ok(steps) && open_steps_ok(
                leg_ids@,
                steps@,
            )),
    {
        if risk_state != RiskState::Healthy {
            self.order_violation_total = bump_count(self.order_violation_total);
            return Err(SequenceError::RiskStateNotHealthy { risk_state });
        }
        if leg_ids.len() == 0 {
            return Err(SequenceError::EmptyLegList);
        }
        let n = leg_ids.len();
        let mut steps: Vec<ExecutionStep> = Vec::new();
        let mut i: usize = 0;
        while i < n
            invariant
                n == leg_ids@.len(),
                i <= n,
                steps@.len() == i,
                forall|j: int| 0 <= j < i ==> steps@[j] == (ExecutionStep::PlaceOpen { leg_id: #[trigger] leg_ids@[j] }),
            decreases n - i,
        {
            steps.push(ExecutionStep::PlaceOpen { leg_id: leg_ids[i].clone() });
            i = i + 1;
        }
        let mut k: usize = 0;
        while k < n
            invariant
                n == leg_ids@.len(),
                k <= n,
                steps@.len() == n + k,
                forall|j: int| 0 <= j < n ==> steps@[j] == (ExecutionStep::PlaceOpen { leg_id: #[trigger] leg_ids@[j] }),
                forall|j: int| 0 <= j < k ==> steps@[n + j] == (ExecutionStep::ConfirmOpen { leg_id: #[trigger] leg_ids@[j] }),
            decreases n - k,
        {
            steps.push(ExecutionStep::ConfirmOpen { leg_id: leg_ids[k].clone() });
            k = k + 1;
        }
        steps.push(hedge_step(false));
        Ok(steps)
    }

    fn generate_repair_steps(leg_ids: &[String]) -> (r: Result<Vec<ExecutionStep>, SequenceError>)
        ensures
            leg_ids@.len() == 0 ==> r == Err::<Vec<ExecutionStep>, SequenceError>(SequenceError::EmptyLegList),
            leg_ids@.len() > 0 ==> (r matches Ok(steps) && repair_steps_ok(leg_ids@, steps@)),
    {
        if leg_ids.len() == 0 {
            return Err(SequenceError::EmptyLegList);
        }
        let n = leg_ids.len();
        let mut steps: Vec<ExecutionStep> = Vec::new();
        let mut i: usize = 0;
        while i < n
            invariant
                n == leg_ids@.len(),
                i <= n,
                steps@.len() == i,
                forall|j: int| 0 <= j < i ==> steps@[j] == (ExecutionStep::FlattenViaEmergencyClose { group_id: #[trigger] leg_ids@[j] }),
            decreases n - i,
        {
            steps.push(ExecutionStep::FlattenViaEmergencyClose { group_id: leg_ids[i].clone() });
            i = i + 1;
        }
        steps.push(hedge_step(true));
        Ok(steps)
    }

    /// Value of a named counter; only the order-violation counter is kept, others read 0.
    pub fn get_counter(&self, name: &str) -> (r: u64)
        ensures
            r == (if name@ == COUNTER_SEQUENCER_ORDER_VIOLATION@ {
                self.violations()
            } else {
                0
            }),
    {
        if str_eq(name, COUNTER_SEQUENCER_ORDER_VIOLATION) {
            self.order_violation_total
        } else {
            0
        }
    }
}

impl Default for Sequencer {
    fn default() -> (s: Self)
        ensures
            s.violations() == 0,
    {
        Self::new()
    }
}

} // verus!
