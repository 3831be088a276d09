use soldier_core::recovery::label_match::LabelMatchMetrics;
use soldier_core::risk::fees::FeeModelRefreshMetrics;
use soldier_core::risk::margin_gate::MarginModeRecommendation;

#[test]
fn label_ambiguity_counter() {
    let mut m = LabelMatchMetrics::default();
    assert_eq!(m.label_match_ambiguity_total(), 0);
    m.record_ambiguity();
    assert_eq!(m.label_match_ambiguity_total(), 1);
}

#[test]
fn fee_refresh_failures_are_counted() {
    let mut m = FeeModelRefreshMetrics::new();
    m.record_fee_model_refresh_fail();
    m.record_fee_model_refresh_fail();
    assert_eq!(m.fee_model_refresh_fail_total(), 2);
}

#[test]
fn margin_recommendation_names() {
    assert_eq!(MarginModeRecommendation::Active.to_string(), "Active");
    assert_eq!(MarginModeRecommendation::ReduceOnly.to_string(), "ReduceOnly");
    assert_eq!(MarginModeRecommendation::Kill.to_string(), "Kill");
}
