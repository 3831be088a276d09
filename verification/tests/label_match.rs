use soldier_core::execution::quantize::Side;
use soldier_core::recovery::label_match::{
    compact_gid12, intent_hash_prefix, LabelCandidate, LabelMatchMetrics,
};
use soldier_core::risk::state::RiskState;

fn cand(group_id: &str, leg_idx: u8, intent_hash: u64, instrument: &str, side: Side, qty: bool) -> LabelCandidate {
    LabelCandidate {
        group_id: group_id.to_string(),
        leg_idx,
        intent_hash,
        instrument_id: instrument.to_string(),
        side,
        qty_matches: qty,
    }
}

#[test]
fn compact_gid12_drops_dashes_and_keeps_twelve_bytes() {
    assert_eq!(compact_gid12("1234-5678-9abc-def0"), "123456789abc");
    assert_eq!(compact_gid12("ab-cd"), "abcd");
    assert_eq!(compact_gid12(""), "");
    assert_eq!(compact_gid12("------"), "");
}

#[test]
fn compact_gid12_counts_bytes_not_chars() {
    // eleven ASCII bytes, then a two-byte char crosses twelve and stops the copy
    assert_eq!(compact_gid12("abcdefghijkéxyz"), "abcdefghijké");
}

#[test]
fn intent_hash_prefix_is_sixteen_lower_hex_digits() {
    assert_eq!(intent_hash_prefix(0), "0000000000000000");
    assert_eq!(intent_hash_prefix(0xdead_beef), "00000000deadbeef");
    assert_eq!(intent_hash_prefix(u64::MAX), "ffffffffffffffff");
}

#[test]
fn no_candidate_with_the_label_prefix_is_no_match() {
    let mut m = LabelMatchMetrics::new();
    let cs = vec![cand("aaaa-bbbb", 0, 1, "BTC-PERP", Side::Buy, true)];
    let r = m.match_label_parts("zzzz", 0, "0000000000000001", "BTC-PERP", Side::Buy, &cs);
    assert_eq!(r.matched, None);
    assert_eq!(r.risk_state, RiskState::Healthy);
    assert_eq!(m.label_match_ambiguity_total(), 0);
}

#[test]
fn leg_index_must_match_too() {
    let mut m = LabelMatchMetrics::new();
    let cs = vec![
        cand("aaaa-bbbb", 0, 1, "BTC-PERP", Side::Buy, true),
        cand("aaaa-bbbb", 1, 1, "BTC-PERP", Side::Buy, true),
    ];
    let r = m.match_label_parts("aaaabbbb", 1, "0000000000000001", "BTC-PERP", Side::Buy, &cs);
    assert_eq!(r.matched, Some(1));
    assert_eq!(r.risk_state, RiskState::Healthy);
}

#[test]
fn intent_hash_breaks_a_tie() {
    let mut m = LabelMatchMetrics::new();
    let cs = vec![
        cand("g-1", 0, 7, "BTC-PERP", Side::Buy, true),
        cand("g-1", 0, 8, "BTC-PERP", Side::Buy, true),
    ];
    let r = m.match_label_parts("g1", 0, &intent_hash_prefix(8), "BTC-PERP", Side::Buy, &cs);
    assert_eq!(r.matched, Some(1));
}

#[test]
fn a_narrowing_that_keeps_none_is_skipped() {
    let mut m = LabelMatchMetrics::new();
    let cs = vec![
        cand("g-1", 0, 7, "BTC-PERP", Side::Buy, true),
        cand("g-1", 0, 7, "ETH-PERP", Side::Buy, true),
    ];
    // no candidate carries the label's hash, so the hash step keeps both; the
    // instrument then decides
    let r = m.match_label_parts("g1", 0, &intent_hash_prefix(9), "ETH-PERP", Side::Buy, &cs);
    assert_eq!(r.matched, Some(1));
}

#[test]
fn side_then_quantity_break_remaining_ties() {
    let mut m = LabelMatchMetrics::new();
    let cs = vec![
        cand("g-1", 0, 7, "BTC-PERP", Side::Buy, false),
        cand("g-1", 0, 7, "BTC-PERP", Side::Sell, false),
        cand("g-1", 0, 7, "BTC-PERP", Side::Sell, true),
    ];
    let r = m.match_label_parts("g1", 0, &intent_hash_prefix(7), "BTC-PERP", Side::Sell, &cs);
    assert_eq!(r.matched, Some(2));
    assert_eq!(r.risk_state, RiskState::Healthy);
}

#[test]
fn indistinguishable_candidates_are_ambiguous_and_counted() {
    let mut m = LabelMatchMetrics::new();
    let cs = vec![
        cand("g-1", 0, 7, "BTC-PERP", Side::Buy, true),
        cand("g-1", 0, 7, "BTC-PERP", Side::Buy, true),
    ];
    let r = m.match_label_parts("g1", 0, &intent_hash_prefix(7), "BTC-PERP", Side::Buy, &cs);
    assert_eq!(r.matched, None);
    assert_eq!(r.risk_state, RiskState::Degraded);
    assert_eq!(m.label_match_ambiguity_total(), 1);
    let _ = m.match_label_parts("g1", 0, &intent_hash_prefix(7), "BTC-PERP", Side::Buy, &cs);
    assert_eq!(m.label_match_ambiguity_total(), 2);
}
