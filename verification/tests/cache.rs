use bcp::cache::{cache_file, is_cache_fresh, DEFAULT_TTL_SECS};

#[test]
fn fresh_cache() {
    assert!(is_cache_fresh(1000, 1000));
    assert!(is_cache_fresh(1000, 1000 + DEFAULT_TTL_SECS));
}

#[test]
fn expired_cache() {
    assert!(!is_cache_fresh(1000, 1000 + DEFAULT_TTL_SECS + 1));
}

#[test]
fn zero_timestamp() {
    assert!(is_cache_fresh(0, DEFAULT_TTL_SECS));
    assert!(!is_cache_fresh(0, DEFAULT_TTL_SECS + 1));
}

#[test]
fn future_timestamp_is_fresh() {
    assert!(is_cache_fresh(5000, 10));
    assert!(is_cache_fresh(u64::MAX, 0));
}

#[test]
fn freshness_is_monotone_in_time() {
    for now in [1000u64, 2000, 1000 + DEFAULT_TTL_SECS] {
        assert!(is_cache_fresh(1000, now));
        assert!(is_cache_fresh(1000, now - 1));
    }
}

#[test]
fn cache_file_is_in_the_cache_dir() {
    assert_eq!(cache_file("/home/u/.cache/bcp"), "/home/u/.cache/bcp/collection.json");
    assert_eq!(cache_file("/tmp/"), "/tmp/collection.json");
    assert_eq!(cache_file(""), "collection.json");
}
