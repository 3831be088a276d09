//! A table of timestamped values keyed by name, held as a vector with unique names.

use vstd::prelude::*;

use crate::text::str_eq;

verus! {

/// One named value with the time it was last updated (ms).
pub struct NamedEntry<T> {
    pub name: String,
    pub value: T,
    pub updated_at_ms: u64,
}

/// The value and update time of the last entry of `s` named `name`.
pub open spec fn find_named<T>(s: Seq<NamedEntry<T>>, name: Seq<char>) -> Option<(T, u64)>
    decreases s.len(),
{
    if s.len() == 0 {
        None
    } else if s.last().name@ == name {
        Some((s.last().value, s.last().updated_at_ms))
    } else {
        find_named(s.drop_last(), name)
    }
}

/// No two entries share a name.
pub open spec fn names_unique<T>(s: Seq<NamedEntry<T>>) -> bool {
    forall|i: int, j: int|
        0 <= i < s.len() && 0 <= j < s.len() && i != j ==> #[trigger] s[i].name@
            != #[trigger] s[j].name@
}

pub(crate) proof fn lemma_find_absent<T>(s: Seq<NamedEntry<T>>, name: Seq<char>)
    requires
        forall|j: int| 0 <= j < s.len() ==> (#[trigger] s[j]).name@ != name,
    ensures
        find_named(s, name) is None,
    decreases s.len(),
{
    if s.len() > 0 {
        assert(s[s.len() - 1].name@ != name);
        lemma_find_absent(s.drop_last(), name);
    }
}

pub(crate) proof fn lemma_find_at<T>(s: Seq<NamedEntry<T>>, i: int, name: Seq<char>)
    requires
        names_unique(s),
        0 <= i < s.len(),
        s[i].name@ == name,
    ensures
        find_named(s, name) == Some((s[i].value, s[i].updated_at_ms)),
    decreases s.len(),
{
    if i != s.len() - 1 {
        assert(s[s.len() - 1].name@ != s[i].name@);
        assert(s.drop_last()[i] == s[i]);
        lemma_find_at(s.drop_last(), i, name);
    }
}

pub(crate) proof fn lemma_find_update<T>(
    s: Seq<NamedEntry<T>>,
    i: int,
    e: NamedEntry<T>,
    name: Seq<char>,
)
    requires
        names_unique(s),
        0 <= i < s.len(),
        e.name@ == s[i].name@,
    ensures
        find_named(s.update(i, e), name) == (if name == e.name@ {
            Some((e.value, e.updated_at_ms))
        } else {
            find_named(s, name)
        }),
        names_unique(s.update(i, e)),
    decreases s.len(),
{
    let t = s.update(i, e);
    assert forall|a: int, b: int| 0 <= a < t.len() && 0 <= b < t.len() && a != b implies #[trigger] t[a].name@
        != #[trigger] t[b].name@ by {
        assert(t[a].name@ == s[a].name@);
        assert(t[b].name@ == s[b].name@);
    }
    if i == s.len() - 1 {
        assert(t.drop_last() =~= s.drop_last());
    } else {
        assert(t.drop_last() =~= s.drop_last().update(i, e));
        lemma_find_update(s.drop_last(), i, e, name);
        if s.last().name@ == name {
            assert(s[s.len() - 1].name@ != s[i].name@);
        }
    }
}

pub(crate) proof fn lemma_push_new<T>(s: Seq<NamedEntry<T>>, e: NamedEntry<T>, name: Seq<char>)
    requires
        names_unique(s),
        forall|j: int| 0 <= j < s.len() ==> (#[trigger] s[j]).name@ != e.name@,
    ensures
        names_unique(s.push(e)),
        find_named(s.push(e), name) == (if name == e.name@ {
            Some((e.value, e.updated_at_ms))
        } else {
            find_named(s, name)
        }),
{
    let t = s.push(e);
    assert(t.drop_last() =~= s);
}

pub(crate) proof fn lemma_find_remove<T>(s: Seq<NamedEntry<T>>, i: int, name: Seq<char>)
    requires
        names_unique(s),
        0 <= i < s.len(),
    ensures
        names_unique(s.remove(i)),
        find_named(s.remove(i), name) == (if name == s[i].name@ {
            None
        } else {
            find_named(s, name)
        }),
    decreases s.len(),
{
    let t = s.remove(i);
    assert forall|a: int, b: int| 0 <= a < t.len() && 0 <= b < t.len() && a != b implies #[trigger] t[a].name@
        != #[trigger] t[b].name@ by {
        let a2 = if a < i { a } else { a + 1 };
        let b2 = if b < i { b } else { b + 1 };
        assert(t[a] == s[a2] && t[b] == s[b2]);
    }
    if name == s[i].name@ {
        assert forall|j: int| 0 <= j < t.len() implies (#[trigger] t[j]).name@ != name by {
            let j2 = if j < i { j } else { j + 1 };
            assert(t[j] == s[j2]);
        }
        lemma_find_absent(t, name);
    } else if i == s.len() - 1 {
        assert(t =~= s.drop_last());
    } else {
        assert(t.drop_last() =~= s.drop_last().remove(i));
        assert(t.last() == s.last());
        lemma_find_remove(s.drop_last(), i, name);
    }
}

/// Index of the entry named `name`, if any.
pub(crate) fn find_index<T>(entries: &Vec<NamedEntry<T>>, name: &str) -> (r: Option<usize>)
    ensures
        r matches Some(i) ==> i < entries@.len() && entries@[i as int].name@ == name@,
        r is None ==> forall|j: int|
            0 <= j < entries@.len() ==> (#[trigger] entries@[j]).name@ != name@,
{
    let mut i: usize = 0;
    while i < entries.len()
        invariant
            i <= entries@.len(),
            forall|j: int| 0 <= j < i ==> (#[trigger] entries@[j]).name@ != name@,
        decreases entries@.len() - i,
    {
        if str_eq(entries[i].name.as_str(), name) {
            return Some(i);
        }
        i = i + 1;
    }
    None
}


/// Milliseconds from `t` to `now`, zero if `t` is later.
pub open spec fn age_at(now: u64, t: u64) -> int {
    if now >= t {
        now - t
    } else {
        0
    }
}

/// The entries of `s` updated within `ttl` ms of `now`, in order.
pub open spec fn recent<T>(s: Seq<NamedEntry<T>>, now: u64, ttl: u64) -> Seq<NamedEntry<T>>
    decreases s.len(),
{
    if s.len() == 0 {
        s
    } else if age_at(now, s.last().updated_at_ms) <= ttl {
        recent(s.drop_last(), now, ttl).push(s.last())
    } else {
        recent(s.drop_last(), now, ttl)
    }
}

pub(crate) proof fn lemma_recent<T>(s: Seq<NamedEntry<T>>, now: u64, ttl: u64)
    requires
        names_unique(s),
    ensures
        names_unique(recent(s, now, ttl)),
        forall|k: int|
            0 <= k < recent(s, now, ttl).len() ==> exists|j: int|
                0 <= j < s.len() && #[trigger] recent(s, now, ttl)[k] == s[j],
        forall|name: Seq<char>|
            #[trigger] find_named(recent(s, now, ttl), name) == (match find_named(s, name) {
                Some((v, t)) => if age_at(now, t) <= ttl {
                    Some((v, t))
                } else {
                    None
                },
                None => None,
            }),
    decreases s.len(),
{
    if s.len() > 0 {
        let d = s.drop_last();
        assert(names_unique(d));
        lemma_recent(d, now, ttl);
        let a = recent(d, now, ttl);
        let last = s.last();
        assert forall|k: int| 0 <= k < a.len() implies (#[trigger] a[k]).name@ != last.name@ by {
            let j = choose|j: int| 0 <= j < d.len() && a[k] == d[j];
            assert(s[j] == d[j]);
            assert(s[j].name@ != s[s.len() - 1].name@);
        }
        if age_at(now, last.updated_at_ms) <= ttl {
            let t = a.push(last);
            assert forall|x: int, y: int| 0 <= x < t.len() && 0 <= y < t.len() && x != y implies #[trigger] t[x].name@
                != #[trigger] t[y].name@ by {
                if x < a.len() && y < a.len() {
                    assert(t[x] == a[x] && t[y] == a[y]);
                } else if x < a.len() {
                    assert(t[x] == a[x]);
                } else if y < a.len() {
                    assert(t[y] == a[y]);
                }
            }
            assert forall|k: int| 0 <= k < t.len() implies exists|j: int| 0 <= j < s.len() && #[trigger] t[k] == s[j] by {
                if k < a.len() {
                    let j = choose|j: int| 0 <= j < d.len() && a[k] == d[j];
                    assert(t[k] == s[j]);
                } else {
                    assert(t[k] == s[s.len() - 1]);
                }
            }
            assert forall|name: Seq<char>| #[trigger] find_named(t, name) == (match find_named(s, name) {
                Some((v, ts)) => if age_at(now, ts) <= ttl {
                    Some((v, ts))
                } else {
                    None
                },
                None => None,
            }) by {
                assert(t.drop_last() =~= a);
                assert(t.last() == last);
                if name != last.name@ {
                    assert(find_named(t, name) == find_named(a, name));
                    assert(find_named(s, name) == find_named(d, name));
                }
            }
        } else {
            assert forall|k: int| 0 <= k < a.len() implies exists|j: int| 0 <= j < s.len() && #[trigger] a[k] == s[j] by {
                let j = choose|j: int| 0 <= j < d.len() && a[k] == d[j];
                assert(a[k] == s[j]);
            }
            assert forall|name: Seq<char>| #[trigger] find_named(a, name) == (match find_named(s, name) {
                Some((v, ts)) => if age_at(now, ts) <= ttl {
                    Some((v, ts))
                } else {
                    None
                },
                None => None,
            }) by {
                if name == last.name@ {
                    lemma_find_absent(a, name);
                }
            }
        }
    }
}

/// The entries updated within `ttl` ms of `now`, in order.
pub(crate) fn keep_recent<T: Copy>(entries: &Vec<NamedEntry<T>>, now: u64, ttl: u64) -> (kept: Vec<
    NamedEntry<T>,
>)
    ensures
        kept@ == recent(entries@, now, ttl),
{
    let mut kept: Vec<NamedEntry<T>> = Vec::new();
    let n = entries.len();
    let mut i: usize = 0;
    while i < n
        invariant
            n == entries@.len(),
            i <= n,
            kept@ == recent(entries@.take(i as int), now, ttl),
        decreases n - i,
    {
        proof {
            assert(entries@.take(i + 1).drop_last() =~= entries@.take(i as int));
        }
        let e = &entries[i];
        if now.saturating_sub(e.updated_at_ms) <= ttl {
            kept.push(NamedEntry { name: e.name.clone(), value: e.value, updated_at_ms: e.updated_at_ms });
        }
        i = i + 1;
    }
    assert(entries@.take(n as int) =~= entries@);
    kept
}

} // verus!
