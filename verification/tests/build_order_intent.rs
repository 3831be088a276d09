use soldier_core::execution::build_order_intent::{
    dispatch_auth_reject, effective_risk_state, BuildOrderIntentObservers,
    BuildOrderIntentOutcome, BuildOrderIntentRejectReason, DispatchStep, GateRun,
    GateSequenceResult, GateSequenceTotals, GateStep, RecordIntentOutcome,
};
use soldier_core::execution::dispatch_map::IntentClassification;
use soldier_core::risk::state::RiskState;

fn run_all_gates(run: &mut GateRun) {
    for step in [
        GateStep::Preflight,
        GateStep::Quantize,
        GateStep::FeeCache,
        GateStep::LiquidityGate,
        GateStep::NetEdgeGate,
        GateStep::Pricer,
    ] {
        run.enter(step);
    }
}

#[test]
fn allowed_run_records_then_dispatches() {
    let mut run = GateRun::new();
    let mut totals = GateSequenceTotals::new();
    let mut observers = Some(BuildOrderIntentObservers::new());
    run_all_gates(&mut run);
    run.record_and_dispatch(RecordIntentOutcome::Recorded, &mut observers, &mut totals);
    assert_eq!(run.gate_trace.len(), 6);
    assert_eq!(
        run.dispatch_trace,
        vec![DispatchStep::RecordIntent, DispatchStep::DispatchAttempt]
    );
    assert_eq!(run.outcome, Some(BuildOrderIntentOutcome::Allowed));
    assert_eq!(totals.gate_sequence_total(GateSequenceResult::Allowed), 1);
    let o = observers.unwrap();
    assert_eq!((o.recorded_total, o.dispatch_total), (1, 1));
}

#[test]
fn failed_record_never_dispatches() {
    let mut run = GateRun::new();
    let mut totals = GateSequenceTotals::new();
    let mut observers = Some(BuildOrderIntentObservers::default());
    run_all_gates(&mut run);
    run.record_and_dispatch(RecordIntentOutcome::Failed, &mut observers, &mut totals);
    assert_eq!(run.dispatch_trace, vec![DispatchStep::RecordIntent]);
    assert_eq!(
        run.outcome,
        Some(BuildOrderIntentOutcome::Rejected(
            BuildOrderIntentRejectReason::RecordedBeforeDispatch
        ))
    );
    assert_eq!(totals.gate_sequence_total(GateSequenceResult::Rejected), 1);
    let o = observers.unwrap();
    assert_eq!((o.recorded_total, o.dispatch_total), (1, 0));
}

#[test]
fn rejection_stops_the_run() {
    let mut run = GateRun::new();
    let mut totals = GateSequenceTotals::new();
    run.enter(GateStep::Preflight);
    run.reject(BuildOrderIntentRejectReason::MissingContext, &mut totals);
    assert_eq!(run.gate_trace, vec![GateStep::Preflight]);
    assert!(run.dispatch_trace.is_empty());
    assert_eq!(totals.rejected_total, 1);
}

#[test]
fn dispatch_authorisation_blocks_unhealthy_opens_only() {
    assert_eq!(effective_risk_state(RiskState::Degraded, RiskState::Healthy), RiskState::Degraded);
    assert_eq!(effective_risk_state(RiskState::Healthy, RiskState::Maintenance), RiskState::Maintenance);
    assert_eq!(
        dispatch_auth_reject(IntentClassification::Open, RiskState::Degraded),
        Some(BuildOrderIntentRejectReason::DispatchAuth(RiskState::Degraded))
    );
    assert_eq!(dispatch_auth_reject(IntentClassification::Close, RiskState::Kill), None);
    assert_eq!(dispatch_auth_reject(IntentClassification::Open, RiskState::Healthy), None);
}
