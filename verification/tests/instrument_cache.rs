use soldier_core::risk::state::RiskState;
use soldier_core::venue::cache::{InstrumentCache, InstrumentCacheMetrics};

#[test]
fn fresh_reads_are_healthy_and_old_reads_degraded() {
    let mut cache: InstrumentCache<u32> = InstrumentCache::new(1_000);
    cache.insert_with_instant("BTC-PERP", 7, 10_000);
    let fresh = cache.get_with_instant("BTC-PERP", 11_000).unwrap();
    assert_eq!(*fresh.metadata, 7);
    assert_eq!(fresh.risk_state, RiskState::Healthy);
    let stale = cache.get_with_instant("BTC-PERP", 11_001).unwrap();
    assert_eq!(stale.risk_state, RiskState::Degraded);
    assert!(cache.get_with_instant("ETH-PERP", 0).is_none());
    assert_eq!(cache.entry_age_ms("BTC-PERP", 9_000), Some(0));
    assert_eq!(cache.ttl(), 1_000);
}

#[test]
fn insert_replaces_an_entry() {
    let mut cache: InstrumentCache<&str> = InstrumentCache::new(50);
    cache.insert_with_instant("X", "old", 0);
    cache.insert_with_instant("Y", "y", 0);
    cache.insert_with_instant("X", "new", 100);
    let r = cache.get_with_instant("X", 120).unwrap();
    assert_eq!(*r.metadata, "new");
    assert_eq!(r.risk_state, RiskState::Healthy);
    assert_eq!(*cache.get_with_instant("Y", 0).unwrap().metadata, "y");
}

#[test]
fn cache_metrics_count_hits_stale_reads_and_errors() {
    let mut m = InstrumentCacheMetrics::new();
    m.record_hit(10, 100);
    m.record_hit(101, 100);
    m.record_instrument_cache_refresh_error();
    assert_eq!(m.instrument_cache_hits_total(), 2);
    assert_eq!(m.instrument_cache_stale_total(), 1);
    assert_eq!(m.instrument_cache_refresh_errors_total(), 1);
    assert_eq!(m.age_ms, 101);
}
