//! The sequence of gates that an order intent runs through before dispatch, and its
//! records: the gates entered, the dispatch steps taken and the outcome.
//!
//! The gates themselves price and size in floating point and run outside this
//! crate; this module keeps the order of the steps and what is recorded.

use vstd::prelude::*;

use crate::execution::dispatch_map::IntentClassification;
use crate::execution::gate::LiquidityGateRejectReason;
use crate::execution::gates::NetEdgeRejectReason;
use crate::execution::order_type_guard::OrderTypeRejectReason;
use crate::execution::quantize::QuantizeRejectReason;
use crate::execution::reject::RejectReason;
use crate::metrics::{bump_count, bumped};
use crate::risk::state::RiskState;

verus! {

/// The gates, in the order they run.
#[derive(Debug, Clone, Copy, PartialEq, Eq, Structural)]
pub enum GateStep {
    Preflight,
    Quantize,
    FeeCache,
    LiquidityGate,
    NetEdgeGate,
    Pricer,
}

#[derive(Debug, Clone, Copy, PartialEq, Eq, Structural)]
pub enum DispatchStep {
    RecordIntent,
    DispatchAttempt,
}

#[derive(Debug, Clone, PartialEq)]
pub enum BuildOrderIntentRejectReason {
    Preflight(OrderTypeRejectReason),
    MissingContext,
    Quantize(QuantizeRejectReason),
    DispatchAuth(RiskState),
    LiquidityGate(LiquidityGateRejectReason),
    NetEdge(NetEdgeRejectReason),
    Pricer(RejectReason),
    RecordedBeforeDispatch,
}

#[derive(Debug, Clone, PartialEq)]
pub enum BuildOrderIntentOutcome {
    Allowed,
    Rejected(BuildOrderIntentRejectReason),
}

#[derive(Debug, Clone, Copy, PartialEq, Eq, Structural)]
pub enum GateSequenceResult {
    Allowed,
    Rejected,
}

/// Whether the intent record was persisted before dispatch.
#[derive(Debug, Clone, Copy, PartialEq, Eq, Structural)]
pub enum RecordIntentOutcome {
    Recorded,
    Failed,
}

/// Counts of intents recorded and dispatches attempted.
#[derive(Debug, Clone)]
pub struct BuildOrderIntentObservers {
    pub recorded_total: u64,
    pub dispatch_total: u64,
}

impl BuildOrderIntentObservers {
    pub fn new() -> (o: Self)
        ensures
            o.recorded_total == 0,
            o.dispatch_total == 0,
    {
        Self { recorded_total: 0, dispatch_total: 0 }
    }

    pub fn record_intent(&mut self)
        ensures
            final(self).recorded_total == bumped(old(self).recorded_total),
            final(self).dispatch_total == old(self).dispatch_total,
    {
        self.recorded_total = bump_count(self.recorded_total);
    }

    pub fn record_dispatch(&mut self)
        ensures
            final(self).dispatch_total == bumped(old(self).dispatch_total),
            final(self).recorded_total == old(self).recorded_total,
    {
        self.dispatch_total = bump_count(self.dispatch_total);
    }
}

impl Default for BuildOrderIntentObservers {
    fn default() -> (o: Self)
        ensures
            o.recorded_total == 0,
            o.dispatch_total == 0,
    {
        Self::new()
    }
}

/// Counts of gate sequences by result.
pub struct GateSequenceTotals {
    pub allowed_total: u64,
    pub rejected_total: u64,
}

impl GateSequenceTotals {
    pub fn new() -> (t: Self)
        ensures
            t.allowed_total == 0,
            t.rejected_total == 0,
    {
        Self { allowed_total: 0, rejected_total: 0 }
    }

    /// The count for one result.
    pub fn gate_sequence_total(&self, result: GateSequenceResult) -> (n: u64)
        ensures
            n == match result {
                GateSequenceResult::Allowed => self.allowed_total,
                GateSequenceResult::Rejected => self.rejected_total,
            },
    {
        match result {
            GateSequenceResult::Allowed => self.allowed_total,
            GateSequenceResult::Rejected => self.rejected_total,
        }
    }
}

/// The risk state that authorises dispatch: the primary one unless it is healthy, in
/// which case the fee-staleness one.
pub fn effective_risk_state(primary: RiskState, fallback: RiskState) -> (r: RiskState)
    ensures
        r == if primary != RiskState::Healthy {
            primary
        } else {
            fallback
        },
{
    if primary != RiskState::Healthy {
        primary
    } else {
        fallback
    }
}

/// OPEN intents are authorised only in a healthy risk state; other intents always are.
pub fn dispatch_auth_reject(classification: IntentClassification, risk_state: RiskState) -> (r:
    Option<BuildOrderIntentRejectReason>)
    ensures
        r == if classification == IntentClassification::Open && risk_state != RiskState::Healthy {
            Some(BuildOrderIntentRejectReason::DispatchAuth(risk_state))
        } else {
            None::<BuildOrderIntentRejectReason>
        },
{
    if classification == IntentClassification::Open && risk_state != RiskState::Healthy {
        Some(BuildOrderIntentRejectReason::DispatchAuth(risk_state))
    } else {
        None
    }
}

/// The record of one run through the sequence of gates.
pub struct GateRun {
    pub gate_trace: Vec<GateStep>,
    pub dispatch_trace: Vec<DispatchStep>,
    pub outcome: Option<BuildOrderIntentOutcome>,
}

impl GateRun {
    /// A run that has entered no gate yet.
    pub fn new() -> (r: Self)
        ensures
            r.gate_trace@ == Seq::<GateStep>::empty(),
            r.dispatch_trace@ == Seq::<DispatchStep>::empty(),
            r.outcome is None,
            run_view(r) == gate_run_after(Seq::empty()),
    {
        Self { gate_trace: Vec::new(), dispatch_trace: Vec::new(), outcome: None }
    }

    /// Enters the next gate.
    pub fn enter(&mut self, step: GateStep)
        ensures
            run_view(*final(self)) == gate_run_step(run_view(*old(self)), GateRunOp::Enter(step)),
            final(self).gate_trace@ == old(self).gate_trace@.push(step),
            final(self).dispatch_trace@ == old(self).dispatch_trace@,
            final(self).outcome == old(self).outcome,
    {
        self.gate_trace.push(step);
    }

    /// Ends the run with a rejection and counts it.
    pub fn reject(&mut self, reason: BuildOrderIntentRejectReason, totals: &mut GateSequenceTotals)
        ensures
            run_view(*final(self)) == gate_run_step(run_view(*old(self)), GateRunOp::Reject(reason)),
            final(self).outcome == Some(BuildOrderIntentOutcome::Rejected(reason)),
            final(self).gate_trace@ == old(self).gate_trace@,
            final(self).dispatch_trace@ == old(self).dispatch_trace@,
            final(totals).rejected_total == bumped(old(totals).rejected_total),
            final(totals).allowed_total == old(totals).allowed_total,
    {
        totals.rejected_total = bump_count(totals.rejected_total);
        self.outcome = Some(BuildOrderIntentOutcome::Rejected(reason));
    }

    /// After every gate passed: records the intent, and dispatches only where the
    /// record was persisted.
    pub fn record_and_dispatch(
        &mut self,
        record_outcome: RecordIntentOutcome,
        observers: &mut Option<BuildOrderIntentObservers>,
        totals: &mut GateSequenceTotals,
    )
        ensures
            run_view(*final(self)) == gate_run_step(
                run_view(*old(self)),
                GateRunOp::RecordAndDispatch(record_outcome),
            ),
            final(self).gate_trace@ == old(self).gate_trace@,
            record_outcome == RecordIntentOutcome::Recorded ==> {
                &&& final(self).dispatch_trace@ == old(self).dispatch_trace@.push(
                    DispatchStep::RecordIntent,
                ).push(DispatchStep::DispatchAttempt)
                &&& final(self).outcome == Some(BuildOrderIntentOutcome::Allowed)
                &&& final(totals).allowed_total == bumped(old(totals).allowed_total)
                &&& final(totals).rejected_total == old(totals).rejected_total
                &&& *old(observers) matches Some(o) ==> *final(observers) matches Some(n)
                    && n.recorded_total == bumped(o.recorded_total) && n.dispatch_total
                    == bumped(o.dispatch_total)
            },
            record_outcome == RecordIntentOutcome::Failed ==> {
                &&& final(self).dispatch_trace@ == old(self).dispatch_trace@.push(
                    DispatchStep::RecordIntent,
                )
                &&& final(self).outcome == Some(
                    BuildOrderIntentOutcome::Rejected(
                        BuildOrderIntentRejectReason::RecordedBeforeDispatch,
                    ),
                )
                &&& final(totals).rejected_total == bumped(old(totals).rejected_total)
                &&& final(totals).allowed_total == old(totals).allowed_total
                &&& *old(observers) matches Some(o) ==> *final(observers) matches Some(n)
                    && n.recorded_total == bumped(o.recorded_total) && n.dispatch_total
                    == o.dispatch_total
            },
            *old(observers) is None ==> *final(observers) is None,
    {
        self.dispatch_trace.push(DispatchStep::RecordIntent);
        match observers {
            Some(o) => o.record_intent(),
            None => {},
        }
        if record_outcome == RecordIntentOutcome::Failed {
            self.reject(BuildOrderIntentRejectReason::RecordedBeforeDispatch, totals);
            return ;
        }
        self.dispatch_trace.push(DispatchStep::DispatchAttempt);
        match observers {
            Some(o) => o.record_dispatch(),
            None => {},
        }
        totals.allowed_total = bump_count(totals.allowed_total);
        self.outcome = Some(BuildOrderIntentOutcome::Allowed);
    }
}

/// One call on a gate run: entering a gate, rejecting, or recording and dispatching.
pub enum GateRunOp {
    Enter(GateStep),
    Reject(BuildOrderIntentRejectReason),
    RecordAndDispatch(RecordIntentOutcome),
}

/// What a gate run records: the gates entered, the dispatch steps and the outcome.
pub open spec fn run_view(r: GateRun) -> (Seq<GateStep>, Seq<DispatchStep>, Option<BuildOrderIntentOutcome>) {
    (r.gate_trace@, r.dispatch_trace@, r.outcome)
}

/// The record after one call, as the calls' contracts give it.
pub open spec fn gate_run_step(
    v: (Seq<GateStep>, Seq<DispatchStep>, Option<BuildOrderIntentOutcome>),
    op: GateRunOp,
) -> (Seq<GateStep>, Seq<DispatchStep>, Option<BuildOrderIntentOutcome>) {
    match op {
        GateRunOp::Enter(step) => (v.0.push(step), v.1, v.2),
        GateRunOp::Reject(reason) => (v.0, v.1, Some(BuildOrderIntentOutcome::Rejected(reason))),
        GateRunOp::RecordAndDispatch(RecordIntentOutcome::Recorded) => (
            v.0,
            v.1.push(DispatchStep::RecordIntent).push(DispatchStep::DispatchAttempt),
            Some(BuildOrderIntentOutcome::Allowed),
        ),
        GateRunOp::RecordAndDispatch(RecordIntentOutcome::Failed) => (
            v.0,
            v.1.push(DispatchStep::RecordIntent),
            Some(BuildOrderIntentOutcome::Rejected(BuildOrderIntentRejectReason::RecordedBeforeDispatch)),
        ),
    }
}

/// The record after a sequence of calls on a new run.
pub open spec fn gate_run_after(ops: Seq<GateRunOp>) -> (Seq<GateStep>, Seq<DispatchStep>, Option<BuildOrderIntentOutcome>)
    decreases ops.len(),
{
    if ops.len() == 0 {
        (Seq::empty(), Seq::empty(), None)
    } else {
        gate_run_step(gate_run_after(ops.drop_last()), ops.last())
    }
}

/// The gates in the order an intent runs through them.
pub open spec fn gate_order() -> Seq<GateStep> {
    seq![
        GateStep::Preflight,
        GateStep::Quantize,
        GateStep::FeeCache,
        GateStep::LiquidityGate,
        GateStep::NetEdgeGate,
        GateStep::Pricer,
    ]
}

/// A run driven as the intent pipeline drives it: the first `k` gates entered in order,
/// then one ending call (a rejection, or recording and dispatching).
pub open spec fn driven_ops(k: nat, end: GateRunOp) -> Seq<GateRunOp> {
    Seq::new(k, |i: int| GateRunOp::Enter(gate_order()[i])).push(end)
}

proof fn lemma_enter_prefix(k: nat)
    requires
        k <= 6,
    ensures
        gate_run_after(Seq::new(k, |i: int| GateRunOp::Enter(gate_order()[i]))) == (
            gate_order().take(k as int),
            Seq::<DispatchStep>::empty(),
            None::<BuildOrderIntentOutcome>,
        ),
    decreases k,
{
    let ops = Seq::new(k, |i: int| GateRunOp::Enter(gate_order()[i]));
    if k > 0 {
        let prev = Seq::new((k - 1) as nat, |i: int| GateRunOp::Enter(gate_order()[i]));
        assert(ops.drop_last() =~= prev);
        lemma_enter_prefix((k - 1) as nat);
        assert(gate_order().take(k - 1).push(gate_order()[k - 1]) =~= gate_order().take(k as int));
    } else {
        assert(gate_order().take(0) =~= Seq::<GateStep>::empty());
    }
}

/// Law (whole run): a run driven through the gates in order and then ended records a
/// prefix of the order of gates, and its outcome is Allowed exactly when its dispatch trace
/// is the intent record followed by the dispatch attempt (the record always precedes
/// the dispatch).
pub proof fn lemma_driven_run(k: nat, end: GateRunOp)
    requires
        k <= 6,
        !(end is Enter),
    ensures
        ({
            let v = gate_run_after(driven_ops(k, end));
            &&& v.0 == gate_order().take(k as int)
            &&& v.2 == Some(BuildOrderIntentOutcome::Allowed) <==> v.1 == seq![
                DispatchStep::RecordIntent,
                DispatchStep::DispatchAttempt,
            ]
        }),
{
    let ops = driven_ops(k, end);
    assert(ops.drop_last() =~= Seq::new(k, |i: int| GateRunOp::Enter(gate_order()[i])));
    lemma_enter_prefix(k);
    let v = gate_run_after(ops);
    match end {
        GateRunOp::RecordAndDispatch(RecordIntentOutcome::Recorded) => {
            assert(v.1 =~= seq![DispatchStep::RecordIntent, DispatchStep::DispatchAttempt]);
        },
        GateRunOp::RecordAndDispatch(RecordIntentOutcome::Failed) => {
            assert(v.1.len() == 1);
        },
        _ => {
            assert(v.1.len() == 0);
        },
    }
}

} // verus!
