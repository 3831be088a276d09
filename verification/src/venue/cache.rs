//! Instrument metadata cache with a freshness TTL: reads of an entry older than the
//! TTL still return it, but mark the risk state Degraded.
//!
//! Times are monotonic milliseconds supplied by the caller.

use vstd::prelude::*;

use crate::metrics::{bump_count, bumped};
use crate::risk::state::RiskState;
use crate::named_table::{
    find_index, find_named, lemma_find_absent, lemma_find_at, lemma_find_update, lemma_push_new,
    names_unique, NamedEntry,
};

verus! {

/// A cache read: the metadata and the risk state that its age implies.
pub struct CacheRead<'a, T> {
    pub metadata: &'a T,
    pub risk_state: RiskState,
}

/// Cached instrument metadata with a freshness TTL.
pub struct InstrumentCache<T> {
    ttl_ms: u64,
    entries: Vec<NamedEntry<T>>,
}

/// The risk state of a read of an entry updated at `updated_at_ms`.
pub open spec fn read_risk_state(now_ms: u64, updated_at_ms: u64, ttl_ms: u64) -> RiskState {
    if now_ms >= updated_at_ms && now_ms - updated_at_ms > ttl_ms {
        RiskState::Degraded
    } else {
        RiskState::Healthy
    }
}

impl<T> InstrumentCache<T> {
    pub closed spec fn wf(&self) -> bool {
        names_unique(self.entries@)
    }

    /// The cached metadata of an instrument with its update time.
    pub closed spec fn entry(&self, name: Seq<char>) -> Option<(T, u64)> {
        find_named(self.entries@, name)
    }

    pub closed spec fn ttl_spec(&self) -> u64 {
        self.ttl_ms
    }

    pub fn new(ttl_ms: u64) -> (c: Self)
        ensures
            c.wf(),
            c.ttl_spec() == ttl_ms,
            forall|name: Seq<char>| c.entry(name) is None,
    {
        Self { ttl_ms, entries: Vec::new() }
    }

    /// Stores the metadata of `instrument`, updated at `updated_at_ms`, replacing any
    /// earlier entry.
    pub fn insert_with_instant(&mut self, instrument: &str, metadata: T, updated_at_ms: u64)
        requires
            old(self).wf(),
        ensures
            final(self).wf(),
            final(self).ttl_spec() == old(self).ttl_spec(),
            final(self).entry(instrument@) == Some((metadata, updated_at_ms)),
            forall|name: Seq<char>|
                name != instrument@ ==> #[trigger] final(self).entry(name) == old(self).entry(name),
    {
        let entry = NamedEntry { name: String::from_str(instrument), value: metadata, updated_at_ms };
        let ghost old_entries = self.entries@;
        match find_index(&self.entries, instrument) {
            Some(i) => {
                proof {
                    assert forall|name: Seq<char>| #[trigger] find_named(old_entries.update(i as int, entry), name) == (if name == entry.name@ {
                        Some((entry.value, entry.updated_at_ms))
                    } else {
                        find_named(old_entries, name)
                    }) by {
                        lemma_find_update(old_entries, i as int, entry, name);
                    }
                    lemma_find_update(old_entries, i as int, entry, instrument@);
                }
                self.entries.set(i, entry);
            },
            None => {
                proof {
                    assert forall|name: Seq<char>| #[trigger] find_named(old_entries.push(entry), name) == (if name == entry.name@ {
                        Some((entry.value, entry.updated_at_ms))
                    } else {
                        find_named(old_entries, name)
                    }) by {
                        lemma_push_new(old_entries, entry, name);
                    }
                    lemma_push_new(old_entries, entry, instrument@);
                }
                self.entries.push(entry);
            },
        }
    }

    /// Reads the metadata of `instrument` at `now_ms`; an entry older than the TTL is
    /// returned with the Degraded risk state.
    pub fn get_with_instant(&self, instrument: &str, now_ms: u64) -> (r: Option<CacheRead<'_, T>>)
        requires
            self.wf(),
        ensures
            match self.entry(instrument@) {
                None => r is None,
                Some((v, at)) => r matches Some(c) && *c.metadata == v && c.risk_state
                    == read_risk_state(now_ms, at, self.ttl_spec()),
            },
    {
        match find_index(&self.entries, instrument) {
            None => {
                proof {
                    lemma_find_absent(self.entries@, instrument@);
                }
                None
            },
            Some(i) => {
                proof {
                    lemma_find_at(self.entries@, i as int, instrument@);
                }
                let e = &self.entries[i];
                let age = now_ms.saturating_sub(e.updated_at_ms);
                let risk_state = if age > self.ttl_ms {
                    RiskState::Degraded
                } else {
                    RiskState::Healthy
                };
                Some(CacheRead { metadata: &e.value, risk_state })
            },
        }
    }

    /// Age of the cached entry of `instrument` at `now_ms` (zero if updated later).
    pub fn entry_age_ms(&self, instrument: &str, now_ms: u64) -> (r: Option<u64>)
        requires
            self.wf(),
        ensures
            match self.entry(instrument@) {
                None => r is None,
                Some((v, at)) => r == Some(if now_ms >= at { (now_ms - at) as u64 } else { 0 }),
            },
    {
        match find_index(&self.entries, instrument) {
            None => {
                proof {
                    lemma_find_absent(self.entries@, instrument@);
                }
                None
            },
            Some(i) => {
                proof {
                    lemma_find_at(self.entries@, i as int, instrument@);
                }
                Some(now_ms.saturating_sub(self.entries[i].updated_at_ms))
            },
        }
    }

    pub fn ttl(&self) -> (t: u64)
        ensures
            t == self.ttl_spec(),
    {
        self.ttl_ms
    }
}

/// Counters of the instrument cache.
pub struct InstrumentCacheMetrics {
    pub stale_total: u64,
    pub hits_total: u64,
    pub age_ms: u64,
    pub refresh_errors_total: u64,
}

impl InstrumentCacheMetrics {
    pub fn new() -> (m: Self)
        ensures
            m.stale_total == 0,
            m.hits_total == 0,
            m.age_ms == 0,
            m.refresh_errors_total == 0,
    {
        Self { stale_total: 0, hits_total: 0, age_ms: 0, refresh_errors_total: 0 }
    }

    /// Counts a cache hit of age `age_ms`, stale where it is older than `ttl_ms`.
    pub fn record_hit(&mut self, age_ms: u64, ttl_ms: u64)
        ensures
            final(self).hits_total == bumped(old(self).hits_total),
            final(self).age_ms == age_ms,
            final(self).stale_total == if age_ms > ttl_ms {
                bumped(old(self).stale_total)
            } else {
                old(self).stale_total
            },
            final(self).refresh_errors_total == old(self).refresh_errors_total,
    {
        self.hits_total = bump_count(self.hits_total);
        self.age_ms = age_ms;
        if age_ms > ttl_ms {
            self.stale_total = bump_count(self.stale_total);
        }
    }

    pub fn instrument_cache_stale_total(&self) -> (n: u64)
        ensures
            n == self.stale_total,
    {
        self.stale_total
    }

    pub fn instrument_cache_hits_total(&self) -> (n: u64)
        ensures
            n == self.hits_total,
    {
        self.hits_total
    }

    pub fn instrument_cache_refresh_errors_total(&self) -> (n: u64)
        ensures
            n == self.refresh_errors_total,
    {
        self.refresh_errors_total
    }

    pub fn record_instrument_cache_refresh_error(&mut self)
        ensures
            final(self).refresh_errors_total == bumped(old(self).refresh_errors_total),
            final(self).stale_total == old(self).stale_total,
            final(self).hits_total == old(self).hits_total,
            final(self).age_ms == old(self).age_ms,
    {
        self.refresh_errors_total = bump_count(self.refresh_errors_total);
    }
}

} // verus!
