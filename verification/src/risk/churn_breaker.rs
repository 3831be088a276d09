use vstd::prelude::*;

use crate::metrics::{bump_count, bumped};
use crate::text::{decimal, push_decimal};

verus! {

/// Flattens counted within this window (5 minutes, in ms).
pub const FLATTEN_WINDOW_MS: u64 = 300_000;

/// More than this many flattens in the window trip the breaker.
pub const FLATTEN_TRIP_COUNT: usize = 2;

/// Blacklist duration after a trip (15 minutes, in ms).
pub const BLACKLIST_DURATION_MS: u64 = 900_000;

/// Identity of a strategy structure that the breaker tracks.
#[derive(Debug, Clone, PartialEq, Eq, Hash)]
pub struct ChurnKey {
    pub strategy_id: String,
    pub structure_fingerprint: String,
}

/// Value of a key: its two strings.
pub type ChurnKeyView = (Seq<char>, Seq<char>);

pub open spec fn key_view(k: ChurnKey) -> ChurnKeyView {
    (k.strategy_id@, k.structure_fingerprint@)
}

pub(crate) fn key_eq(a: &ChurnKey, b: &ChurnKey) -> (r: bool)
    ensures
        r == (key_view(*a) == key_view(*b)),
{
    a.strategy_id == b.strategy_id && a.structure_fingerprint == b.structure_fingerprint
}

pub(crate) fn key_clone(k: &ChurnKey) -> (r: ChurnKey)
    ensures
        r == *k,
{
    ChurnKey { strategy_id: k.strategy_id.clone(), structure_fingerprint: k.structure_fingerprint.clone() }
}

#[derive(Debug, Clone, PartialEq)]
pub enum ChurnBreakerDecision {
    Allow,
    Reject { reason: String, trip_count: u64 },
}

/// An entry keyed by a churn key.
pub struct Keyed<T> {
    pub key: ChurnKey,
    pub value: T,
}

/// The value of the last entry of `s` with key `kv`.
pub open spec fn lookup<T>(s: Seq<Keyed<T>>, kv: ChurnKeyView) -> Option<T>
    decreases s.len(),
{
    if s.len() == 0 {
        None
    } else if key_view(s.last().key) == kv {
        Some(s.last().value)
    } else {
        lookup(s.drop_last(), kv)
    }
}

/// No two entries share a key.
pub open spec fn keys_unique<T>(s: Seq<Keyed<T>>) -> bool {
    forall|i: int, j: int| 0 <= i < s.len() && 0 <= j < s.len() && i != j ==> key_view(#[trigger] s[i].key) != key_view(#[trigger] s[j].key)
}

pub(crate) proof fn lemma_lookup_absent<T>(s: Seq<Keyed<T>>, kv: ChurnKeyView)
    requires
        forall|j: int| 0 <= j < s.len() ==> key_view(#[trigger] s[j].key) != kv,
    ensures
        lookup(s, kv) is None,
    decreases s.len(),
{
    if s.len() > 0 {
        assert(key_view(s[s.len() - 1].key) != kv);
        lemma_lookup_absent(s.drop_last(), kv);
    }
}

pub(crate) proof fn lemma_lookup_found<T>(s: Seq<Keyed<T>>, i: int, kv: ChurnKeyView)
    requires
        keys_unique(s),
        0 <= i < s.len(),
        key_view(s[i].key) == kv,
    ensures
        lookup(s, kv) == Some(s[i].value),
    decreases s.len(),
{
    if i != s.len() - 1 {
        assert(key_view(s[s.len() - 1].key) != key_view(s[i].key));
        assert(s.drop_last()[i] == s[i]);
        lemma_lookup_found(s.drop_last(), i, kv);
    }
}

pub(crate) proof fn lemma_lookup_update<T>(s: Seq<Keyed<T>>, i: int, e: Keyed<T>, kv: ChurnKeyView)
    requires
        keys_unique(s),
        0 <= i < s.len(),
        key_view(e.key) == key_view(s[i].key),
    ensures
        lookup(s.update(i, e), kv) == (if kv == key_view(e.key) { Some(e.value) } else { lookup(s, kv) }),
        keys_unique(s.update(i, e)),
    decreases s.len(),
{
    let t = s.update(i, e);
    assert forall|a: int, b: int| 0 <= a < t.len() && 0 <= b < t.len() && a != b implies key_view(#[trigger] t[a].key) != key_view(#[trigger] t[b].key) by {
        assert(key_view(t[a].key) == key_view(s[a].key));
        assert(key_view(t[b].key) == key_view(s[b].key));
    }
    if i == s.len() - 1 {
        assert(t.drop_last() =~= s.drop_last());
    } else {
        assert(t.drop_last() =~= s.drop_last().update(i, e));
        assert(keys_unique(s.drop_last()));
        lemma_lookup_update(s.drop_last(), i, e, kv);
        if key_view(s.last().key) == kv {
            assert(key_view(s[s.len() - 1].key) != key_view(s[i].key));
        }
    }
}

pub(crate) proof fn lemma_push_fresh<T>(s: Seq<Keyed<T>>, e: Keyed<T>)
    requires
        keys_unique(s),
        forall|j: int| 0 <= j < s.len() ==> key_view(#[trigger] s[j].key) != key_view(e.key),
    ensures
        keys_unique(s.push(e)),
        forall|kv: ChurnKeyView| lookup(s.push(e), kv) == (if kv == key_view(e.key) { Some(e.value) } else { lookup(s, kv) }),
{
    let t = s.push(e);
    assert forall|kv: ChurnKeyView| lookup(t, kv) == (if kv == key_view(e.key) { Some(e.value) } else { lookup(s, kv) }) by {
        assert(t.drop_last() =~= s);
    }
}

/// The blacklist entries still active at `now` (blocked until a later time), in order.
pub open spec fn active_entries(s: Seq<Keyed<u64>>, now: u64) -> Seq<Keyed<u64>>
    decreases s.len(),
{
    if s.len() == 0 {
        s
    } else if now < s.last().value {
        active_entries(s.drop_last(), now).push(s.last())
    } else {
        active_entries(s.drop_last(), now)
    }
}

pub(crate) proof fn lemma_active_entries(s: Seq<Keyed<u64>>, now: u64)
    requires
        keys_unique(s),
    ensures
        keys_unique(active_entries(s, now)),
        forall|k: int| 0 <= k < active_entries(s, now).len() ==> exists|j: int| 0 <= j < s.len() && #[trigger] active_entries(s, now)[k] == s[j],
        forall|kv: ChurnKeyView| lookup(active_entries(s, now), kv) == (match lookup(s, kv) {
            Some(u) => if now < u { Some(u) } else { None },
            None => None,
        }),
    decreases s.len(),
{
    if s.len() > 0 {
        let d = s.drop_last();
        assert(keys_unique(d));
        lemma_active_entries(d, now);
        let a = active_entries(d, now);
        let last = s.last();
        assert forall|k: int| 0 <= k < a.len() implies key_view(#[trigger] a[k].key) != key_view(last.key) by {
            let j = choose|j: int| 0 <= j < d.len() && a[k] == d[j];
            assert(s[j] == d[j]);
            assert(key_view(s[j].key) != key_view(s[s.len() - 1].key));
        }
        if now < last.value {
            let t = a.push(last);
            assert forall|x: int, y: int| 0 <= x < t.len() && 0 <= y < t.len() && x != y implies key_view(#[trigger] t[x].key) != key_view(#[trigger] t[y].key) by {
                if x < a.len() && y < a.len() {
                    assert(t[x] == a[x] && t[y] == a[y]);
                } else if x < a.len() {
                    assert(t[x] == a[x]);
                } else if y < a.len() {
                    assert(t[y] == a[y]);
                }
            }
            assert forall|k: int| 0 <= k < t.len() implies exists|j: int| 0 <= j < s.len() && #[trigger] t[k] == s[j] by {
                if k < a.len() {
                    let j = choose|j: int| 0 <= j < d.len() && a[k] == d[j];
                    assert(t[k] == s[j]);
                } else {
                    assert(t[k] == s[s.len() - 1]);
                }
            }
            assert forall|kv: ChurnKeyView| lookup(t, kv) == (match lookup(s, kv) {
                Some(u) => if now < u { Some(u) } else { None },
                None => None,
            }) by {
                assert(t.drop_last() =~= a);
                assert(t.last() == last);
                if kv != key_view(last.key) {
                    assert(lookup(t, kv) == lookup(a, kv));
                    assert(lookup(s, kv) == lookup(d, kv));
                }
            }
        } else {
            assert forall|k: int| 0 <= k < a.len() implies exists|j: int| 0 <= j < s.len() && #[trigger] a[k] == s[j] by {
                let j = choose|j: int| 0 <= j < d.len() && a[k] == d[j];
                assert(a[k] == s[j]);
            }
            assert forall|kv: ChurnKeyView| lookup(a, kv) == (match lookup(s, kv) {
                Some(u) => if now < u { Some(u) } else { None },
                None => None,
            }) by {
                if kv == key_view(last.key) {
                    lemma_lookup_absent(a, kv);
                }
            }
        }
    }
}

/// Milliseconds from `t` to `now`, zero if `t` is later.
pub open spec fn elapsed(now: u64, t: u64) -> int {
    if now >= t {
        now - t
    } else {
        0
    }
}

/// The flatten times still inside the window at `now`, in their order.
pub open spec fn in_window(ts: Seq<u64>, now: u64) -> Seq<u64> {
    ts.filter(|t: u64| elapsed(now, t) <= FLATTEN_WINDOW_MS)
}

/// The message of a rejection while blacklisted.
pub open spec fn churn_reject_reason(remaining_ms: int) -> Seq<char> {
    "ChurnBreakerActive: blacklisted for "@ + decimal((remaining_ms / 1000) as nat) + "s remaining"@
}

/// Churn circuit breaker: more than two flattens of a key within five minutes blacklist
/// that key for fifteen minutes, blocking its opens.
pub struct ChurnBreaker {
    history: Vec<Keyed<Vec<u64>>>,
    blacklist: Vec<Keyed<u64>>,
    trip_counter: u64,
}

impl ChurnBreaker {
    /// Keys are unique in both tables.
    pub closed spec fn wf(&self) -> bool {
        keys_unique(self.history@) && keys_unique(self.blacklist@)
    }

    /// Recorded flatten times of a key (empty if none).
    pub closed spec fn flattens(&self, kv: ChurnKeyView) -> Seq<u64> {
        match lookup(self.history@, kv) {
            Some(v) => v@,
            None => Seq::empty(),
        }
    }

    /// End of a key's blacklisting, if it is on the blacklist.
    pub closed spec fn blocked_until(&self, kv: ChurnKeyView) -> Option<u64> {
        lookup(self.blacklist@, kv)
    }

    pub closed spec fn trips(&self) -> u64 {
        self.trip_counter
    }

    pub fn new() -> (b: Self)
        ensures
            b.wf(),
            b.trips() == 0,
            forall|kv: ChurnKeyView| b.flattens(kv) == Seq::<u64>::empty() && b.blocked_until(kv) is None,
    {
        Self { history: Vec::new(), blacklist: Vec::new(), trip_counter: 0 }
    }

    fn find_history(&self, key: &ChurnKey) -> (r: Option<usize>)
        requires
            self.wf(),
        ensures
            r matches Some(i) ==> i < self.history@.len() && key_view(self.history@[i as int].key) == key_view(*key),
            r is None ==> forall|i: int| 0 <= i < self.history@.len() ==> key_view(#[trigger] self.history@[i].key) != key_view(*key),
    {
        let mut i: usize = 0;
        while i < self.history.len()
            invariant
                i <= self.history@.len(),
                forall|j: int| 0 <= j < i ==> key_view(#[trigger] self.history@[j].key) != key_view(*key),
            decreases self.history@.len() - i,
        {
            if key_eq(&self.history[i].key, key) {
                return Some(i);
            }
            i = i + 1;
        }
        None
    }

    fn find_blacklist(&self, key: &ChurnKey) -> (r: Option<usize>)
        requires
            self.wf(),
        ensures
            r matches Some(i) ==> i < self.blacklist@.len() && key_view(self.blacklist@[i as int].key) == key_view(*key),
            r is None ==> forall|i: int| 0 <= i < self.blacklist@.len() ==> key_view(#[trigger] self.blacklist@[i].key) != key_view(*key),
    {
        let mut i: usize = 0;
        while i < self.blacklist.len()
            invariant
                i <= self.blacklist@.len(),
                forall|j: int| 0 <= j < i ==> key_view(#[trigger] self.blacklist@[j].key) != key_view(*key),
            decreases self.blacklist@.len() - i,
        {
            if key_eq(&self.blacklist[i].key, key) {
                return Some(i);
            }
            i = i + 1;
        }
        None
    }

    /// Records a flatten of `key` at `now_ms`; the third flatten within the window
    /// blacklists the key until `now_ms + 15 minutes` and counts a trip.
    pub fn record_flatten(&mut self, key: ChurnKey, now_ms: u64)
        requires
            old(self).wf(),
            now_ms <= u64::MAX - BLACKLIST_DURATION_MS,
        ensures
            final(self).wf(),
            final(self).flattens(key_view(key)) == in_window(old(self).flattens(key_view(key)).push(now_ms), now_ms),
            forall|kv: ChurnKeyView| kv != key_view(key) ==> final(self).flattens(kv) == old(self).flattens(kv),
            forall|kv: ChurnKeyView| kv != key_view(key) ==> final(self).blocked_until(kv) == old(self).blocked_until(kv),
            final(self).flattens(key_view(key)).len() > FLATTEN_TRIP_COUNT ==> (final(self).blocked_until(key_view(key))
                == Some((now_ms + BLACKLIST_DURATION_MS) as u64) && final(self).trips() == bumped(old(self).trips())),
            final(self).flattens(key_view(key)).len() <= FLATTEN_TRIP_COUNT ==> (final(self).blocked_until(key_view(key))
                == old(self).blocked_until(key_view(key)) && final(self).trips() == old(self).trips()),
    {
        let ghost kv = key_view(key);
        let idx = self.find_history(&key);
        let old_ts: Vec<u64> = match idx {
            Some(i) => {
                proof {
                    lemma_lookup_found(self.history@, i as int, kv);
                }
                self.history[i].value.clone()
            },
            None => {
                proof {
                    lemma_lookup_absent(self.history@, kv);
                }
                Vec::new()
            },
        };
        let mut all_ts = old_ts;
        all_ts.push(now_ms);
        let kept = keep_in_window(&all_ts, now_ms);
        let count = kept.len();
        let ghost old_history = self.history@;
        let entry = Keyed { key: key_clone(&key), value: kept };
        match idx {
            Some(i) => {
                proof {
                    assert forall|kv2: ChurnKeyView| lookup(old_history.update(i as int, entry), kv2) == (if kv2 == kv { Some(entry.value) } else { lookup(old_history, kv2) }) by {
                        lemma_lookup_update(old_history, i as int, entry, kv2);
                    }
                    lemma_lookup_update(old_history, i as int, entry, kv);
                }
                self.history.set(i, entry);
            },
            None => {
                proof {
                    lemma_push_fresh(old_history, entry);
                }
                self.history.push(entry);
            },
        }
        if count > FLATTEN_TRIP_COUNT {
            self.trip_counter = bump_count(self.trip_counter);
            self.blacklist_insert(key, now_ms + BLACKLIST_DURATION_MS);
        }
    }

    fn blacklist_insert(&mut self, key: ChurnKey, until: u64)
        requires
            old(self).wf(),
        ensures
            final(self).wf(),
            final(self).history@ == old(self).history@,
            final(self).trip_counter == old(self).trip_counter,
            forall|kv: ChurnKeyView| final(self).blocked_until(kv) == (if kv == key_view(key) { Some(until) } else { old(self).blocked_until(kv) }),
    {
        let idx = self.find_blacklist(&key);
        let ghost old_bl = self.blacklist@;
        let entry = Keyed { key: key_clone(&key), value: until };
        match idx {
            Some(i) => {
                proof {
                    assert forall|kv2: ChurnKeyView| lookup(old_bl.update(i as int, entry), kv2) == (if kv2 == key_view(key) { Some(until) } else { lookup(old_bl, kv2) }) by {
                        lemma_lookup_update(old_bl, i as int, entry, kv2);
                    }
                    lemma_lookup_update(old_bl, i as int, entry, key_view(key));
                }
                self.blacklist.set(i, entry);
            },
            None => {
                proof {
                    lemma_push_fresh(old_bl, entry);
                }
                self.blacklist.push(entry);
            },
        }
    }

    /// Drops expired blacklist entries, then rejects the open if `key` is still blacklisted.
    pub fn evaluate_open(&mut self, key: &ChurnKey, now_ms: u64) -> (d: ChurnBreakerDecision)
        requires
            old(self).wf(),
        ensures
            final(self).wf(),
            final(self).trips() == old(self).trips(),
            forall|kv: ChurnKeyView| final(self).flattens(kv) == old(self).flattens(kv),
            forall|kv: ChurnKeyView| final(self).blocked_until(kv) == (match old(self).blocked_until(kv) {
                Some(u) => if now_ms < u { Some(u) } else { None },
                None => None,
            }),
            match old(self).blocked_until(key_view(*key)) {
                Some(u) if now_ms < u => d matches ChurnBreakerDecision::Reject { reason, trip_count }
                    && reason@ == churn_reject_reason(u - now_ms) && trip_count == old(self).trips(),
                _ => d == ChurnBreakerDecision::Allow,
            },
    {
        let ghost old_bl = self.blacklist@;
        let kept = prune_expired(&self.blacklist, now_ms);
        self.blacklist = kept;
        match self.find_blacklist(key) {
            Some(j) => {
                proof {
                    lemma_lookup_found(self.blacklist@, j as int, key_view(*key));
                }
                let until = self.blacklist[j].value;
                let mut reason = String::from_str("ChurnBreakerActive: blacklisted for ");
                push_decimal(&mut reason, (until - now_ms) / 1000);
                reason.append("s remaining");
                ChurnBreakerDecision::Reject { reason, trip_count: self.trip_counter }
            },
            None => {
                proof {
                    lemma_lookup_absent(self.blacklist@, key_view(*key));
                }
                ChurnBreakerDecision::Allow
            },
        }
    }

    pub fn trip_count(&self) -> (r: u64)
        ensures
            r == self.trips(),
    {
        self.trip_counter
    }
}

impl Default for ChurnBreaker {
    fn default() -> (b: Self)
        ensures
            b.wf(),
            b.trips() == 0,
            forall|kv: ChurnKeyView| b.flattens(kv) == Seq::<u64>::empty() && b.blocked_until(kv) is None,
    {
        Self::new()
    }
}

/// The entries of `entries` still active at `now`, in order.
pub(crate) fn prune_expired(entries: &Vec<Keyed<u64>>, now_ms: u64) -> (kept: Vec<Keyed<u64>>)
    requires
        keys_unique(entries@),
    ensures
        kept@ == active_entries(entries@, now_ms),
        keys_unique(kept@),
        forall|kv: ChurnKeyView| lookup(kept@, kv) == (match lookup(entries@, kv) {
            Some(u) => if now_ms < u { Some(u) } else { None },
            None => None,
        }),
{
    let ghost old_bl = entries@;
    let mut kept: Vec<Keyed<u64>> = Vec::new();
    let mut i: usize = 0;
    let n = entries.len();
    while i < n
        invariant
            n == entries@.len(),
            entries@ == old_bl,
            i <= n,
            kept@ == active_entries(old_bl.take(i as int), now_ms),
        decreases n - i,
    {
        proof {
            assert(old_bl.take(i + 1).drop_last() =~= old_bl.take(i as int));
        }
        let until = entries[i].value;
        if now_ms < until {
            kept.push(Keyed { key: key_clone(&entries[i].key), value: until });
        }
        i = i + 1;
    }
    assert(old_bl.take(n as int) =~= old_bl);
    proof {
        lemma_active_entries(old_bl, now_ms);
    }
    kept
}

/// Index of the entry keyed like `key`, if any.
pub(crate) fn find_key<T>(entries: &Vec<Keyed<T>>, key: &ChurnKey) -> (r: Option<usize>)
    ensures
        r matches Some(i) ==> i < entries@.len() && key_view(entries@[i as int].key) == key_view(*key),
        r is None ==> forall|i: int| 0 <= i < entries@.len() ==> key_view(#[trigger] entries@[i].key) != key_view(*key),
{
    let mut i: usize = 0;
    while i < entries.len()
        invariant
            i <= entries@.len(),
            forall|j: int| 0 <= j < i ==> key_view(#[trigger] entries@[j].key) != key_view(*key),
        decreases entries@.len() - i,
    {
        if key_eq(&entries[i].key, key) {
            return Some(i);
        }
        i = i + 1;
    }
    None
}

/// The timestamps of `ts` within the window at `now`, in order.
fn keep_in_window(ts: &Vec<u64>, now: u64) -> (r: Vec<u64>)
    ensures
        r@ == in_window(ts@, now),
{
    let mut out: Vec<u64> = Vec::new();
    let mut i: usize = 0;
    while i < ts.len()
        invariant
            i <= ts@.len(),
            out@ == in_window(ts@.take(i as int), now),
        decreases ts@.len() - i,
    {
        proof {
            assert(ts@.take(i + 1).drop_last() =~= ts@.take(i as int));
            assert(ts@.take(i + 1).last() == ts@[i as int]);
            reveal(Seq::filter);
        }
        let t = ts[i];
        if now.saturating_sub(t) <= FLATTEN_WINDOW_MS {
            out.push(t);
        }
        i = i + 1;
    }
    assert(ts@.take(ts@.len() as int) =~= ts@);
    out
}

/// How many of the times in `s` lie at most the window before `now`.
pub open spec fn recent_count(s: Seq<u64>, now: u64) -> nat
    decreases s.len(),
{
    if s.len() == 0 {
        0
    } else {
        recent_count(s.drop_last(), now) + if now - s.last() <= FLATTEN_WINDOW_MS {
            1nat
        } else {
            0nat
        }
    }
}

proof fn lemma_in_window_len(s: Seq<u64>, now: u64)
    requires
        forall|j: int| 0 <= j < s.len() ==> #[trigger] s[j] <= now,
    ensures
        in_window(s, now).len() == recent_count(s, now),
    decreases s.len(),
{
    let pred = |t: u64| elapsed(now, t) <= FLATTEN_WINDOW_MS;
    assert(in_window(s, now) == s.filter(pred));
    if s.len() > 0 {
        assert(s.last() == s[s.len() - 1]);
        lemma_in_window_len(s.drop_last(), now);
        assert(in_window(s.drop_last(), now) == s.drop_last().filter(pred));
        assert(elapsed(now, s.last()) == now - s.last());
        reveal(Seq::filter);
    }
}

/// Law (flatten count): when a flatten of a key is recorded at `now`, no earlier than
/// any flatten already recorded for it, the key's history afterwards holds that flatten
/// and every earlier one at most five minutes before `now`, so `record_flatten` trips
/// the breaker (and blacklists the key for fifteen minutes) exactly when this count,
/// `1 + recent_count(..)`, exceeds two.
pub proof fn lemma_flatten_count(recorded: Seq<u64>, now: u64)
    requires
        forall|j: int| 0 <= j < recorded.len() ==> #[trigger] recorded[j] <= now,
    ensures
        in_window(recorded.push(now), now).len() == recent_count(recorded, now) + 1,
{
    let s = recorded.push(now);
    assert(s.drop_last() =~= recorded);
    assert(s.last() == now);
    assert forall|j: int| 0 <= j < s.len() implies #[trigger] s[j] <= now by {
        if j < recorded.len() {
            assert(s[j] == recorded[j]);
        }
    }
    lemma_in_window_len(s, now);
    assert(recent_count(s, now) == recent_count(recorded, now) + 1);
}

/// Law (blacklist duration): a key that a trip at `now` blacklisted is blocked, so that
/// `evaluate_open` rejects it, at every time from `now` until fifteen minutes later.
pub proof fn lemma_trip_blocks_for_duration(b: ChurnBreaker, kv: ChurnKeyView, now: u64, later: u64)
    requires
        now <= u64::MAX - BLACKLIST_DURATION_MS,
        b.blocked_until(kv) == Some((now + BLACKLIST_DURATION_MS) as u64),
        now <= later < now + BLACKLIST_DURATION_MS,
    ensures
        b.blocked_until(kv) matches Some(u) && later < u,
{
}

} // verus!
