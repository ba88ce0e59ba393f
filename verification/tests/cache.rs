use exc::cache::InstrumentCache;
use exc::instrument::Instrument;

fn inst(symbol: &str, active: bool) -> Instrument {
    Instrument {
        symbol: symbol.to_string(),
        price_precision: 2,
        size_precision: 6,
        min_size: 10,
        active,
    }
}

#[test]
fn empty_cache_has_no_entries() {
    let cache = InstrumentCache::new();
    assert!(cache.get("BTC-USDT").is_none());
}

#[test]
fn bulk_init_replaces_the_whole_map() {
    let mut cache = InstrumentCache::new();
    cache.init_from(vec![inst("BTC-USDT", true)]);
    cache.init_from(vec![inst("ETH-USDT", true)]);
    assert!(cache.get("BTC-USDT").is_none());
    assert!(cache.get("ETH-USDT").is_some());
}

#[test]
fn upsert_inserts_new_and_replaces_whole_entries() {
    let mut cache = InstrumentCache::new();
    cache.upsert(inst("BTC-USDT", true));
    assert!(cache.get("BTC-USDT").unwrap().active);

    let mut halted = inst("BTC-USDT", false);
    halted.min_size = 20;
    cache.upsert(halted);

    let got = cache.get("BTC-USDT").unwrap();
    assert!(!got.active);
    assert_eq!(got.min_size, 20);

    assert!(cache.get("ETH-USDT").is_none());
}

#[test]
fn duplicate_symbols_in_a_snapshot_resolve_to_the_later_entry() {
    let mut cache = InstrumentCache::new();
    let mut newer = inst("BTC-USDT", false);
    newer.price_precision = 4;
    cache.init_from(vec![inst("BTC-USDT", true), newer]);
    let got = cache.get("BTC-USDT").unwrap();
    assert_eq!(got.price_precision, 4);
    assert!(!got.active);
}
