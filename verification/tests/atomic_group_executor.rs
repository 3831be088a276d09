use soldier_core::execution::atomic_group_executor::{
    AtomicGroupExecutor, LegReading, RescueAction, RESCUE_ATTEMPTS_TTL_MS,
};
use soldier_core::execution::group::{AtomicGroup, GroupFailure, GroupState, LegState};

fn leg(state: LegState, is_partial: bool) -> LegReading {
    LegReading { state, is_partial }
}

fn dispatched(id: &str) -> (AtomicGroupExecutor, AtomicGroup) {
    let exec = AtomicGroupExecutor::new();
    let mut g = AtomicGroup::new(id);
    exec.on_intent_persisted(&mut g).unwrap();
    (exec, g)
}

#[test]
fn all_filled_legs_complete_the_group() {
    let (mut exec, mut g) = dispatched("g1");
    let legs = [leg(LegState::Filled, false), leg(LegState::Filled, false)];
    exec.evaluate(&mut g, &legs, false).unwrap();
    assert_eq!(g.state(), GroupState::Complete);
    assert!(exec.open_allowed(&g));
}

#[test]
fn pending_legs_leave_the_group_dispatched() {
    let (mut exec, mut g) = dispatched("g1");
    let legs = [leg(LegState::Filled, false), leg(LegState::Pending, false)];
    exec.evaluate(&mut g, &legs, false).unwrap();
    assert_eq!(g.state(), GroupState::Dispatched);
    // No legs at all never completes.
    exec.evaluate(&mut g, &[], false).unwrap();
    assert_eq!(g.state(), GroupState::Dispatched);
}

#[test]
fn first_failing_leg_decides_the_failure() {
    let (mut exec, mut g) = dispatched("g1");
    let legs = [
        leg(LegState::Filled, true),
        leg(LegState::Rejected, false),
    ];
    exec.evaluate(&mut g, &legs, true).unwrap();
    assert_eq!(g.state(), GroupState::MixedFailed);
    assert_eq!(g.first_failure(), Some(GroupFailure::PartialFill));
    assert!(!exec.open_allowed(&g));
}

#[test]
fn fill_mismatch_fails_the_group() {
    let (mut exec, mut g) = dispatched("g1");
    let legs = [leg(LegState::Filled, false), leg(LegState::Filled, false)];
    exec.evaluate(&mut g, &legs, true).unwrap();
    assert_eq!(g.first_failure(), Some(GroupFailure::FillMismatch));
}

#[test]
fn second_rescue_failure_starts_containment() {
    let (mut exec, mut g) = dispatched("g1");
    exec.evaluate(&mut g, &[leg(LegState::Canceled, false)], false).unwrap();
    assert_eq!(exec.record_rescue_failure(&mut g, 1_000).unwrap(), RescueAction::Retry);
    assert_eq!(exec.rescue_attempts(&g), 1);
    assert_eq!(exec.record_rescue_failure(&mut g, 2_000).unwrap(), RescueAction::Flatten);
    assert_eq!(g.state(), GroupState::Flattening);
    assert_eq!(exec.record_rescue_failure(&mut g, 3_000).unwrap(), RescueAction::Noop);
    exec.mark_flattened(&mut g).unwrap();
    assert_eq!(g.state(), GroupState::Flattened);
    assert_eq!(exec.rescue_attempts(&g), 0);
}

#[test]
fn stale_rescue_records_are_forgotten() {
    let (mut exec, mut g) = dispatched("g1");
    exec.evaluate(&mut g, &[leg(LegState::Unfilled, false)], false).unwrap();
    assert_eq!(exec.record_rescue_failure(&mut g, 0).unwrap(), RescueAction::Retry);
    let later = RESCUE_ATTEMPTS_TTL_MS + 1;
    assert_eq!(exec.record_rescue_failure(&mut g, later).unwrap(), RescueAction::Retry);
    assert_eq!(exec.rescue_attempts(&g), 1);
    assert_eq!(g.state(), GroupState::MixedFailed);
}
