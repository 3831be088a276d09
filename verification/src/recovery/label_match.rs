//! Matching an order seen on the exchange back to the leg that sent it, from the
//! parts decoded out of its compact label: group id prefix, leg index and intent-hash
//! prefix, then instrument, side and quantity to break ties.

use vstd::prelude::*;

use crate::execution::quantize::Side;
use crate::metrics::{bump_count, bumped};
use crate::policy::canonical_json::{as_ints, utf8};
use crate::policy::digest::{hex_encode, hex_string, u64_be_bytes};
use crate::risk::state::RiskState;
use crate::text::str_eq;

verus! {

/// Number of label matches that were ambiguous (more than one candidate).
pub struct LabelMatchMetrics {
    label_match_ambiguity_total: u64,
}

impl LabelMatchMetrics {
    pub fn new() -> (m: Self)
        ensures
            m.ambiguity_count() == 0,
    {
        Self { label_match_ambiguity_total: 0 }
    }

    pub closed spec fn ambiguity_count(&self) -> u64 {
        self.label_match_ambiguity_total
    }

    pub fn label_match_ambiguity_total(&self) -> (n: u64)
        ensures
            n == self.ambiguity_count(),
    {
        self.label_match_ambiguity_total
    }

    /// Counts one ambiguous match.
    pub fn record_ambiguity(&mut self)
        ensures
            final(self).ambiguity_count() == bumped(old(self).ambiguity_count()),
    {
        self.label_match_ambiguity_total = bump_count(self.label_match_ambiguity_total);
    }
}

impl Default for LabelMatchMetrics {
    fn default() -> (m: Self)
        ensures
            m.ambiguity_count() == 0,
    {
        Self::new()
    }
}


// ─── label parts of a candidate ───────────────────────────────────────────────

/// The group id with dashes removed, cut once the kept text reaches 12 bytes (UTF-8);
/// `used` is the byte length kept so far.
pub open spec fn compact_gid(s: Seq<char>, used: nat) -> Seq<char>
    decreases s.len(),
{
    if s.len() == 0 {
        Seq::empty()
    } else if s[0] == '-' {
        compact_gid(s.skip(1), used)
    } else if used >= 12 {
        Seq::empty()
    } else {
        seq![s[0]] + compact_gid(s.skip(1), used + utf8(s[0]).len())
    }
}

/// The 12-byte group id prefix carried in a compact label.
pub open spec fn compact_gid12_spec(group_id: Seq<char>) -> Seq<char> {
    compact_gid(group_id, 0)
}

/// The intent hash as 16 lowercase hex digits.
pub open spec fn intent_hash_hex(h: u64) -> Seq<char> {
    hex_string(u64_be_bytes(h))
}

fn utf8_len(c: char) -> (n: usize)
    ensures
        n == utf8(c).len(),
{
    let u = c as u32;
    if u < 0x80 {
        1
    } else if u < 0x800 {
        2
    } else if u < 0x10000 {
        3
    } else {
        4
    }
}

/// The group id with dashes removed, cut once 12 bytes are kept.
pub fn compact_gid12(group_id: &str) -> (r: String)
    ensures
        r@ == compact_gid12_spec(group_id@),
{
    let n = group_id.unicode_len();
    let mut out = String::new();
    let mut used: usize = 0;
    let mut i: usize = 0;
    assert(group_id@.skip(0) =~= group_id@);
    assert(out@ + compact_gid(group_id@.skip(0), 0) =~= compact_gid(group_id@, 0));
    while i < n
        invariant
            n == group_id@.len(),
            i <= n,
            used <= 16,
            out@ + compact_gid(group_id@.skip(i as int), used as nat) == compact_gid12_spec(group_id@),
        decreases n - i,
    {
        let c = group_id.get_char(i);
        let ghost rest = group_id@.skip(i as int);
        proof {
            assert(rest[0] == c);
            assert(rest.skip(1) =~= group_id@.skip(i + 1));
        }
        if c == '-' {
            i = i + 1;
            continue;
        }
        if used >= 12 {
            assert(compact_gid(rest, used as nat) =~= Seq::<char>::empty());
            assert(out@ + Seq::<char>::empty() =~= out@);
            return out;
        }
        let piece = group_id.substring_char(i, i + 1);
        assert(piece@ =~= seq![c]);
        let ghost before = out@;
        out.append(piece);
        used = used + utf8_len(c);
        proof {
            assert(before + (seq![c] + compact_gid(rest.skip(1), used as nat)) =~= out@ + compact_gid(
                rest.skip(1),
                used as nat,
            ));
        }
        i = i + 1;
    }
    assert(group_id@.skip(n as int).len() == 0);
    assert(out@ + Seq::<char>::empty() =~= out@);
    out
}

/// The intent hash as 16 lowercase hex digits, high nibble first.
pub fn intent_hash_prefix(intent_hash: u64) -> (r: String)
    ensures
        r@ == intent_hash_hex(intent_hash),
{
    let mut bytes: Vec<u8> = Vec::new();
    bytes.push((intent_hash >> 56u64) as u8);
    bytes.push((intent_hash >> 48u64) as u8);
    bytes.push((intent_hash >> 40u64) as u8);
    bytes.push((intent_hash >> 32u64) as u8);
    bytes.push((intent_hash >> 24u64) as u8);
    bytes.push((intent_hash >> 16u64) as u8);
    bytes.push((intent_hash >> 8u64) as u8);
    bytes.push(intent_hash as u8);
    assert(bytes@ =~= u64_be_bytes(intent_hash));
    hex_encode(bytes.as_slice())
}


// ─── matching ─────────────────────────────────────────────────────────────────

/// What the matcher reads of one candidate leg.
pub struct LabelCandidate {
    pub group_id: String,
    pub leg_idx: u8,
    pub intent_hash: u64,
    pub instrument_id: String,
    pub side: Side,
    /// The candidate's quantity equals the order's.
    pub qty_matches: bool,
}

/// The matched candidate's index (none for no match or an ambiguous one) and the
/// risk state: Degraded when several candidates remain indistinguishable.
#[derive(Debug, Clone, Copy, PartialEq, Eq, Structural)]
pub struct LabelMatchOutcome {
    pub matched: Option<usize>,
    pub risk_state: RiskState,
}

/// The indices of `s` whose flag is set, in order.
pub open spec fn keep_where(s: Seq<int>, flags: Seq<bool>) -> Seq<int>
    decreases s.len(),
{
    if s.len() == 0 {
        s
    } else {
        let r = keep_where(s.drop_last(), flags);
        if flags[s.last()] {
            r.push(s.last())
        } else {
            r
        }
    }
}

/// Narrows `s` to the indices whose flag is set, unless none is.
pub open spec fn narrow_by(s: Seq<int>, flags: Seq<bool>) -> Seq<int> {
    let kept = keep_where(s, flags);
    if kept.len() == 0 {
        s
    } else {
        kept
    }
}

pub open spec fn gid_leg_flags(c: Seq<LabelCandidate>, gid12: Seq<char>, leg_idx: u8) -> Seq<bool> {
    Seq::new(c.len(), |i: int| c[i].leg_idx == leg_idx && compact_gid12_spec(c[i].group_id@) == gid12)
}

pub open spec fn intent_hash_flags(c: Seq<LabelCandidate>, ih16: Seq<char>) -> Seq<bool> {
    Seq::new(c.len(), |i: int| intent_hash_hex(c[i].intent_hash) == ih16)
}

pub open spec fn instrument_flags(c: Seq<LabelCandidate>, instrument_id: Seq<char>) -> Seq<bool> {
    Seq::new(c.len(), |i: int| c[i].instrument_id@ == instrument_id)
}

pub open spec fn side_flags(c: Seq<LabelCandidate>, side: Side) -> Seq<bool> {
    Seq::new(c.len(), |i: int| c[i].side == side)
}

pub open spec fn qty_flags(c: Seq<LabelCandidate>) -> Seq<bool> {
    Seq::new(c.len(), |i: int| c[i].qty_matches)
}

pub open spec fn single(s: Seq<int>) -> LabelMatchOutcome {
    LabelMatchOutcome { matched: Some(s[0] as usize), risk_state: RiskState::Healthy }
}

/// The match decision: candidates with the label's group prefix and leg index; where
/// several remain, narrowed in turn by intent hash, instrument, side and quantity
/// (a narrowing that would leave none is skipped). Several left at the end is
/// ambiguous.
pub open spec fn label_match_spec(
    c: Seq<LabelCandidate>,
    gid12: Seq<char>,
    leg_idx: u8,
    ih16: Seq<char>,
    instrument_id: Seq<char>,
    side: Side,
) -> LabelMatchOutcome {
    let m0 = keep_where(Seq::new(c.len(), |i: int| i), gid_leg_flags(c, gid12, leg_idx));
    let m1 = narrow_by(m0, intent_hash_flags(c, ih16));
    let m2 = narrow_by(m1, instrument_flags(c, instrument_id));
    let m3 = narrow_by(m2, side_flags(c, side));
    let m4 = narrow_by(m3, qty_flags(c));
    if m0.len() == 0 {
        LabelMatchOutcome { matched: None, risk_state: RiskState::Healthy }
    } else if m0.len() == 1 {
        single(m0)
    } else if m1.len() == 1 {
        single(m1)
    } else if m2.len() == 1 {
        single(m2)
    } else if m3.len() == 1 {
        single(m3)
    } else if m4.len() == 1 {
        single(m4)
    } else {
        LabelMatchOutcome { matched: None, risk_state: RiskState::Degraded }
    }
}

proof fn lemma_keep_where_bounded(s: Seq<int>, flags: Seq<bool>, n: int)
    requires
        forall|j: int| 0 <= j < s.len() ==> 0 <= #[trigger] s[j] < n,
    ensures
        forall|j: int|
            0 <= j < keep_where(s, flags).len() ==> 0 <= #[trigger] keep_where(s, flags)[j] < n,
    decreases s.len(),
{
    if s.len() > 0 {
        lemma_keep_where_bounded(s.drop_last(), flags, n);
        let r = keep_where(s.drop_last(), flags);
        assert(s.last() == s[s.len() - 1]);
        if flags[s.last()] {
            assert forall|j: int| 0 <= j < r.push(s.last()).len() implies 0 <= #[trigger] r.push(s.last())[j] < n by {
                if j < r.len() {
                    assert(r.push(s.last())[j] == r[j]);
                }
            }
        }
    }
}

/// The indices of `s` whose flag is set.
fn keep_exec(s: &Vec<usize>, flags: &Vec<bool>) -> (r: Vec<usize>)
    requires
        forall|j: int| 0 <= j < s@.len() ==> #[trigger] s@[j] < flags@.len(),
    ensures
        as_ints(r@) == keep_where(as_ints(s@), flags@),
        forall|j: int| 0 <= j < r@.len() ==> #[trigger] r@[j] < flags@.len(),
{
    let mut r: Vec<usize> = Vec::new();
    let mut i: usize = 0;
    while i < s.len()
        invariant
            i <= s@.len(),
            forall|j: int| 0 <= j < s@.len() ==> #[trigger] s@[j] < flags@.len(),
            as_ints(r@) == keep_where(as_ints(s@).take(i as int), flags@),
            forall|j: int| 0 <= j < r@.len() ==> #[trigger] r@[j] < flags@.len(),
        decreases s@.len() - i,
    {
        let k = s[i];
        proof {
            assert(as_ints(s@).take(i + 1).drop_last() =~= as_ints(s@).take(i as int));
            assert(as_ints(s@).take(i + 1).last() == k as int);
        }
        if flags[k] {
            r.push(k);
        }
        assert(as_ints(r@) =~= keep_where(as_ints(s@).take(i + 1), flags@));
        i = i + 1;
    }
    assert(as_ints(s@).take(s@.len() as int) =~= as_ints(s@));
    r
}

fn narrow_exec(s: Vec<usize>, flags: &Vec<bool>) -> (r: Vec<usize>)
    requires
        forall|j: int| 0 <= j < s@.len() ==> #[trigger] s@[j] < flags@.len(),
    ensures
        as_ints(r@) == narrow_by(as_ints(s@), flags@),
        forall|j: int| 0 <= j < r@.len() ==> #[trigger] r@[j] < flags@.len(),
{
    let kept = keep_exec(&s, flags);
    if kept.len() == 0 {
        s
    } else {
        kept
    }
}

fn side_eq(a: Side, b: Side) -> (r: bool)
    ensures
        r == (a == b),
{
    match (a, b) {
        (Side::Buy, Side::Buy) | (Side::Sell, Side::Sell) => true,
        _ => false,
    }
}

impl LabelMatchMetrics {
    /// Matches an order to its leg from the decoded label parts (`gid12`, `leg_idx`,
    /// `ih16`) and the order's instrument and side; an ambiguous match is counted.
    pub fn match_label_parts(
        &mut self,
        gid12: &str,
        leg_idx: u8,
        ih16: &str,
        instrument_id: &str,
        side: Side,
        candidates: &[LabelCandidate],
    ) -> (r: LabelMatchOutcome)
        ensures
            r == label_match_spec(candidates@, gid12@, leg_idx, ih16@, instrument_id@, side),
            r.risk_state == RiskState::Degraded ==> final(self).ambiguity_count() == bumped(
                old(self).ambiguity_count(),
            ),
            r.risk_state != RiskState::Degraded ==> final(self).ambiguity_count() == old(
                self,
            ).ambiguity_count(),
    {
        let n = candidates.len();
        let ghost c = candidates@;
        let mut gid_f: Vec<bool> = Vec::new();
        let mut ih_f: Vec<bool> = Vec::new();
        let mut instr_f: Vec<bool> = Vec::new();
        let mut side_f: Vec<bool> = Vec::new();
        let mut qty_f: Vec<bool> = Vec::new();
        let mut all: Vec<usize> = Vec::new();
        let mut i: usize = 0;
        while i < n
            invariant
                n == c.len(),
                c == candidates@,
                i <= n,
                gid_f@ == gid_leg_flags(c, gid12@, leg_idx).take(i as int),
                ih_f@ == intent_hash_flags(c, ih16@).take(i as int),
                instr_f@ == instrument_flags(c, instrument_id@).take(i as int),
                side_f@ == side_flags(c, side).take(i as int),
                qty_f@ == qty_flags(c).take(i as int),
                all@.len() == i,
                forall|j: int| 0 <= j < all@.len() ==> #[trigger] all@[j] == j,
            decreases n - i,
        {
            let cand = &candidates[i];
            let g = cand.leg_idx == leg_idx && str_eq(compact_gid12(cand.group_id.as_str()).as_str(), gid12);
            gid_f.push(g);
            ih_f.push(str_eq(intent_hash_prefix(cand.intent_hash).as_str(), ih16));
            instr_f.push(str_eq(cand.instrument_id.as_str(), instrument_id));
            side_f.push(side_eq(cand.side, side));
            qty_f.push(cand.qty_matches);
            all.push(i);
            i = i + 1;
            assert(gid_f@ =~= gid_leg_flags(c, gid12@, leg_idx).take(i as int));
            assert(ih_f@ =~= intent_hash_flags(c, ih16@).take(i as int));
            assert(instr_f@ =~= instrument_flags(c, instrument_id@).take(i as int));
            assert(side_f@ =~= side_flags(c, side).take(i as int));
            assert(qty_f@ =~= qty_flags(c).take(i as int));
        }
        assert(as_ints(all@) =~= Seq::new(c.len(), |k: int| k));
        assert(gid_f@ =~= gid_leg_flags(c, gid12@, leg_idx));
        assert(ih_f@ =~= intent_hash_flags(c, ih16@));
        assert(instr_f@ =~= instrument_flags(c, instrument_id@));
        assert(side_f@ =~= side_flags(c, side));
        assert(qty_f@ =~= qty_flags(c));
        let m0 = keep_exec(&all, &gid_f);
        if m0.len() == 0 {
            return LabelMatchOutcome { matched: None, risk_state: RiskState::Healthy };
        }
        if m0.len() == 1 {
            return LabelMatchOutcome { matched: Some(m0[0]), risk_state: RiskState::Healthy };
        }
        let m1 = narrow_exec(m0, &ih_f);
        if m1.len() == 1 {
            return LabelMatchOutcome { matched: Some(m1[0]), risk_state: RiskState::Healthy };
        }
        let m2 = narrow_exec(m1, &instr_f);
        if m2.len() == 1 {
            return LabelMatchOutcome { matched: Some(m2[0]), risk_state: RiskState::Healthy };
        }
        let m3 = narrow_exec(m2, &side_f);
        if m3.len() == 1 {
            return LabelMatchOutcome { matched: Some(m3[0]), risk_state: RiskState::Healthy };
        }
        let m4 = narrow_exec(m3, &qty_f);
        if m4.len() == 1 {
            return LabelMatchOutcome { matched: Some(m4[0]), risk_state: RiskState::Healthy };
        }
        self.record_ambiguity();
        LabelMatchOutcome { matched: None, risk_state: RiskState::Degraded }
    }
}

/// A match is one of the candidates carrying the label's group prefix and leg index.
pub proof fn lemma_match_is_consistent_with_label(
    c: Seq<LabelCandidate>,
    gid12: Seq<char>,
    leg_idx: u8,
    ih16: Seq<char>,
    instrument_id: Seq<char>,
    side: Side,
)
    requires
        c.len() <= usize::MAX,
    ensures
        ({
            let r = label_match_spec(c, gid12, leg_idx, ih16, instrument_id, side);
            r.matched matches Some(k) ==> k < c.len() && c[k as int].leg_idx == leg_idx
                && compact_gid12_spec(c[k as int].group_id@) == gid12
        }),
{
    let all = Seq::new(c.len(), |i: int| i);
    let f0 = gid_leg_flags(c, gid12, leg_idx);
    let m0 = keep_where(all, f0);
    let m1 = narrow_by(m0, intent_hash_flags(c, ih16));
    let m2 = narrow_by(m1, instrument_flags(c, instrument_id));
    let m3 = narrow_by(m2, side_flags(c, side));
    let m4 = narrow_by(m3, qty_flags(c));
    lemma_keep_where_flagged(all, f0);
    lemma_narrow_subset(m0, intent_hash_flags(c, ih16));
    lemma_narrow_subset(m1, instrument_flags(c, instrument_id));
    lemma_narrow_subset(m2, side_flags(c, side));
    lemma_narrow_subset(m3, qty_flags(c));
    if m0.len() >= 1 {
        // the element picked is the head of the first stage with exactly one member
        let x = if m0.len() == 1 {
            m0[0]
        } else if m1.len() == 1 {
            m1[0]
        } else if m2.len() == 1 {
            m2[0]
        } else if m3.len() == 1 {
            m3[0]
        } else {
            m4[0]
        };
        if m0.len() == 1 {
        } else if m1.len() == 1 {
            assert(m0.contains(m1[0]));
        } else if m2.len() == 1 {
            assert(m1.contains(m2[0]));
            assert(m0.contains(m2[0]));
        } else if m3.len() == 1 {
            assert(m2.contains(m3[0]));
            assert(m1.contains(m3[0]));
            assert(m0.contains(m3[0]));
        } else if m4.len() == 1 {
            assert(m3.contains(m4[0]));
            assert(m2.contains(m4[0]));
            assert(m1.contains(m4[0]));
            assert(m0.contains(m4[0]));
        }
        if m0.len() == 1 || m1.len() == 1 || m2.len() == 1 || m3.len() == 1 || m4.len() == 1 {
            let w = choose|w: int| 0 <= w < m0.len() && m0[w] == x;
            assert(f0[m0[w]]);
            assert(all.contains(x));
            let v = choose|v: int| 0 <= v < all.len() && all[v] == x;
            assert(0 <= x < c.len());
            assert(f0[x]);
        }
    }
}

proof fn lemma_keep_where_flagged(s: Seq<int>, flags: Seq<bool>)
    ensures
        forall|j: int|
            0 <= j < keep_where(s, flags).len() ==> flags[#[trigger] keep_where(s, flags)[j]]
                && s.contains(keep_where(s, flags)[j]),
    decreases s.len(),
{
    if s.len() > 0 {
        lemma_keep_where_flagged(s.drop_last(), flags);
        let r = keep_where(s.drop_last(), flags);
        assert forall|j: int| 0 <= j < keep_where(s, flags).len() implies flags[#[trigger] keep_where(s, flags)[j]]
            && s.contains(keep_where(s, flags)[j]) by {
            if j < r.len() {
                assert(keep_where(s, flags)[j] == r[j]);
                let w = choose|w: int| 0 <= w < s.drop_last().len() && s.drop_last()[w] == r[j];
                assert(s[w] == r[j]);
            } else {
                assert(s[s.len() - 1] == s.last());
            }
        }
    }
}

proof fn lemma_narrow_subset(s: Seq<int>, flags: Seq<bool>)
    ensures
        forall|j: int| 0 <= j < narrow_by(s, flags).len() ==> s.contains(#[trigger] narrow_by(s, flags)[j]),
{
    lemma_keep_where_flagged(s, flags);
    assert forall|j: int| 0 <= j < narrow_by(s, flags).len() implies s.contains(#[trigger] narrow_by(s, flags)[j]) by {
        if keep_where(s, flags).len() == 0 {
            assert(s[j] == narrow_by(s, flags)[j]);
        }
    }
}

} // verus!
