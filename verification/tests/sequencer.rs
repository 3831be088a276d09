use soldier_core::execution::sequencer::{
    ExecutionStep, IntentKind, SequenceError, Sequencer, COUNTER_SEQUENCER_ORDER_VIOLATION,
};
use soldier_core::risk::state::RiskState;

#[test]
fn test_close_steps_ordering() {
    let mut seq = Sequencer::new();
    let leg_ids = vec!["leg1".to_string(), "leg2".to_string()];

    let steps = seq
        .generate_steps(IntentKind::Close, RiskState::Healthy, &leg_ids)
        .unwrap();

    assert_eq!(steps.len(), 5);
    assert!(matches!(steps[0], ExecutionStep::PlaceClose { .. }));
    assert!(matches!(steps[1], ExecutionStep::PlaceClose { .. }));
    assert!(matches!(steps[2], ExecutionStep::ConfirmClose { .. }));
    assert!(matches!(steps[3], ExecutionStep::ConfirmClose { .. }));
    assert!(matches!(
        steps[4],
        ExecutionStep::PlaceHedge {
            reduce_only: true,
            ..
        }
    ));
}

#[test]
fn test_open_blocked_when_risk_state_degraded() {
    let mut seq = Sequencer::new();
    let leg_ids = vec!["leg1".to_string()];

    let result = seq.generate_steps(IntentKind::Open, RiskState::Degraded, &leg_ids);

    assert!(matches!(
        result,
        Err(SequenceError::RiskStateNotHealthy {
            risk_state: RiskState::Degraded
        })
    ));
    assert_eq!(seq.get_counter(COUNTER_SEQUENCER_ORDER_VIOLATION), 1);
}

#[test]
fn test_repair_flattens_before_hedge() {
    let mut seq = Sequencer::new();
    let leg_ids = vec!["group1".to_string()];

    let steps = seq
        .generate_steps(IntentKind::Repair, RiskState::Degraded, &leg_ids)
        .unwrap();

    assert_eq!(steps.len(), 2);
    assert!(matches!(
        steps[0],
        ExecutionStep::FlattenViaEmergencyClose { .. }
    ));
    assert!(matches!(
        steps[1],
        ExecutionStep::PlaceHedge {
            reduce_only: true,
            ..
        }
    ));
}

#[test]
fn open_steps_place_then_confirm_then_hedge() {
    let mut seq = Sequencer::new();
    let leg_ids = vec!["a".to_string(), "b".to_string()];
    let steps = seq
        .generate_steps(IntentKind::Open, RiskState::Healthy, &leg_ids)
        .unwrap();
    assert_eq!(
        steps,
        vec![
            ExecutionStep::PlaceOpen { leg_id: "a".to_string() },
            ExecutionStep::PlaceOpen { leg_id: "b".to_string() },
            ExecutionStep::ConfirmOpen { leg_id: "a".to_string() },
            ExecutionStep::ConfirmOpen { leg_id: "b".to_string() },
            ExecutionStep::PlaceHedge { leg_id: "hedge_leg".to_string(), reduce_only: false },
        ]
    );
    assert_eq!(seq.get_counter(COUNTER_SEQUENCER_ORDER_VIOLATION), 0);
    assert_eq!(seq.get_counter("other_counter"), 0);
}

#[test]
fn empty_leg_list_is_refused() {
    let mut seq = Sequencer::new();
    let legs: Vec<String> = Vec::new();
    assert_eq!(
        seq.generate_steps(IntentKind::Close, RiskState::Healthy, &legs),
        Err(SequenceError::EmptyLegList)
    );
}
