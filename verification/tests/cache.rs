use conversion_cache::cache::{ConversionCache, CACHE_CAPACITY, CACHE_TTL_SECS};

fn numbered(prefix: &str, index: usize) -> String {
    format!("{}|{}|1.000000", prefix, index)
}

#[test]
fn the_limits_are_five_minutes_and_a_thousand_entries() {
    assert_eq!(CACHE_TTL_SECS, 300);
    assert_eq!(CACHE_CAPACITY, 1000);
}

#[test]
fn a_new_store_is_empty() {
    let cache: ConversionCache<f64> = ConversionCache::new();
    assert_eq!(cache.len(), 0);
    assert_eq!(cache.get("USD|EUR|100.000000", 0), None);
}

#[test]
fn a_written_value_is_read_back_within_the_time_to_live() {
    let mut cache: ConversionCache<f64> = ConversionCache::new();
    cache.set("USD|EUR|100.000000".to_string(), 92.0, 1_000);
    assert_eq!(cache.get("USD|EUR|100.000000", 1_000), Some(92.0));
    assert_eq!(cache.get("USD|EUR|100.000000", 1_150), Some(92.0));
    assert_eq!(cache.get("USD|EUR|100.000000", 1_299), Some(92.0));
    assert_eq!(cache.len(), 1);
}

#[test]
fn an_entry_is_stale_once_its_age_reaches_the_time_to_live() {
    let mut cache: ConversionCache<f64> = ConversionCache::new();
    cache.set("USD|EUR|100.000000".to_string(), 92.0, 1_000);
    assert_eq!(cache.get("USD|EUR|100.000000", 1_300), None);
    assert_eq!(cache.get("USD|EUR|100.000000", 1_301), None);
    assert_eq!(cache.get("USD|EUR|100.000000", u64::MAX), None);
}

#[test]
fn a_read_of_a_stale_entry_does_not_remove_it() {
    let mut cache: ConversionCache<f64> = ConversionCache::new();
    cache.set("USD|EUR|100.000000".to_string(), 92.0, 1_000);
    assert_eq!(cache.get("USD|EUR|100.000000", 5_000), None);
    assert_eq!(cache.len(), 1);
}

#[test]
fn an_entry_stamped_after_the_time_of_the_read_counts_as_fresh() {
    let mut cache: ConversionCache<f64> = ConversionCache::new();
    cache.set("USD|EUR|100.000000".to_string(), 92.0, 1_000);
    assert_eq!(cache.get("USD|EUR|100.000000", 10), Some(92.0));
    cache.set("USD|JPY|1.000000".to_string(), 150.0, u64::MAX);
    assert_eq!(cache.get("USD|JPY|1.000000", 0), Some(150.0));
    assert_eq!(cache.get("USD|JPY|1.000000", u64::MAX), Some(150.0));
}

#[test]
fn an_absent_key_is_a_miss() {
    let mut cache: ConversionCache<f64> = ConversionCache::new();
    cache.set("USD|EUR|100.000000".to_string(), 92.0, 1_000);
    assert_eq!(cache.get("USD|EUR|100.000001", 1_000), None);
    assert_eq!(cache.get("", 1_000), None);
}

#[test]
fn an_overwrite_replaces_value_and_timestamp() {
    let mut cache: ConversionCache<f64> = ConversionCache::new();
    cache.set("USD|EUR|100.000000".to_string(), 92.0, 1_000);
    cache.set("USD|EUR|100.000000".to_string(), 93.5, 1_200);
    assert_eq!(cache.len(), 1);
    assert_eq!(cache.get("USD|EUR|100.000000", 1_200), Some(93.5));
    assert_eq!(cache.get("USD|EUR|100.000000", 1_499), Some(93.5));
    assert_eq!(cache.get("USD|EUR|100.000000", 1_500), None);
}

#[test]
fn a_stale_key_becomes_fresh_again_by_a_new_write() {
    let mut cache: ConversionCache<f64> = ConversionCache::new();
    cache.set("USD|EUR|100.000000".to_string(), 92.0, 1_000);
    assert_eq!(cache.get("USD|EUR|100.000000", 2_000), None);
    cache.set("USD|EUR|100.000000".to_string(), 91.0, 2_000);
    assert_eq!(cache.get("USD|EUR|100.000000", 2_000), Some(91.0));
}

#[test]
fn keys_do_not_share_values() {
    let mut cache: ConversionCache<f64> = ConversionCache::new();
    cache.set("USD|EUR|100.000000".to_string(), 92.0, 1_000);
    cache.set("USD|EUR|100.000001".to_string(), 92.00000092, 1_000);
    assert_eq!(cache.len(), 2);
    assert_eq!(cache.get("USD|EUR|100.000000", 1_001), Some(92.0));
    assert_eq!(cache.get("USD|EUR|100.000001", 1_001), Some(92.00000092));
}

#[test]
fn a_write_within_capacity_purges_nothing() {
    let mut cache: ConversionCache<f64> = ConversionCache::new();
    for index in 0..CACHE_CAPACITY {
        cache.set(numbered("OLD", index), 1.0, 0);
    }
    assert_eq!(cache.len(), 1000);
    cache.set("NEW|0|1.000000".to_string(), 2.0, 10_000);
    assert_eq!(cache.len(), 1001);
}

#[test]
fn a_write_past_capacity_purges_the_stale_entries_and_only_those() {
    let mut cache: ConversionCache<f64> = ConversionCache::new();
    for index in 0..600 {
        cache.set(numbered("OLD", index), index as f64, 0);
    }
    for index in 0..401 {
        cache.set(numbered("NEW", index), index as f64, 1_000);
    }
    assert_eq!(cache.len(), 1001);

    cache.set("USD|EUR|100.000000".to_string(), 92.0, 1_100);

    assert_eq!(cache.len(), 402);
    for index in 0..401 {
        assert_eq!(cache.get(&numbered("NEW", index), 1_100), Some(index as f64));
    }
    for index in 0..600 {
        assert_eq!(cache.get(&numbered("OLD", index), 0), None);
    }
    assert_eq!(cache.get("USD|EUR|100.000000", 1_100), Some(92.0));
}

#[test]
fn a_purge_removes_the_entry_whose_age_is_exactly_the_time_to_live() {
    let mut cache: ConversionCache<f64> = ConversionCache::new();
    cache.set("EDGE|300|1.000000".to_string(), 1.0, 700);
    cache.set("EDGE|299|1.000000".to_string(), 2.0, 701);
    for index in 0..999 {
        cache.set(numbered("NEW", index), 3.0, 1_000);
    }
    assert_eq!(cache.len(), 1001);

    cache.set("USD|EUR|100.000000".to_string(), 92.0, 1_000);

    assert_eq!(cache.len(), 1001);
    assert_eq!(cache.get("EDGE|300|1.000000", 0), None);
    assert_eq!(cache.get("EDGE|299|1.000000", 1_000), Some(2.0));
}

#[test]
fn a_purge_of_a_store_without_stale_entries_keeps_them_all() {
    let mut cache: ConversionCache<f64> = ConversionCache::new();
    for index in 0..1001 {
        cache.set(numbered("NEW", index), 1.0, 1_000);
    }
    cache.set(numbered("NEW", 1001), 1.0, 1_299);
    assert_eq!(cache.len(), 1002);
    cache.set(numbered("NEW", 1002), 1.0, 1_300);
    assert_eq!(cache.len(), 2);
    assert_eq!(cache.get(&numbered("NEW", 1001), 1_300), Some(1.0));
}

#[test]
fn a_purge_keeps_an_overwritten_key_listed_once() {
    let mut cache: ConversionCache<f64> = ConversionCache::new();
    for index in 0..1001 {
        cache.set(numbered("OLD", index), 1.0, 0);
    }
    cache.set(numbered("OLD", 7), 2.0, 1_000);
    assert_eq!(cache.len(), 1);
    assert_eq!(cache.get(&numbered("OLD", 7), 1_000), Some(2.0));
    cache.set(numbered("OLD", 7), 3.0, 1_001);
    assert_eq!(cache.len(), 1);
    assert_eq!(cache.get(&numbered("OLD", 7), 1_001), Some(3.0));
}

#[test]
fn the_store_holds_values_of_any_copyable_type() {
    let mut cache: ConversionCache<u32> = ConversionCache::new();
    cache.set("A|B|1.000000".to_string(), 7, 5);
    assert_eq!(cache.get("A|B|1.000000", 5), Some(7));
}
