use stock_crawler::sentinel::{expires_at, reading_says_done, SentinelCache, SentinelMark};

#[test]
fn an_empty_cache_says_no() {
    let cache = SentinelCache::new();
    assert!(!cache.get_bool("financial_statement::yahoo", 0));
    assert_eq!(cache.peek("financial_statement::yahoo"), None);
}

#[test]
fn a_mark_lasts_until_it_expires() {
    let mut cache = SentinelCache::new();
    cache.set("task", true, 10, 1_000);
    assert_eq!(cache.peek("task"), Some(SentinelMark { value: true, expires_at: 11_000 }));
    assert!(cache.get_bool("task", 1_000));
    assert!(cache.get_bool("task", 10_999));
    assert!(!cache.get_bool("task", 11_000));
    assert!(!cache.get_bool("other", 1_000));
}

#[test]
fn a_false_mark_says_no() {
    let mut cache = SentinelCache::new();
    cache.set("task", false, 10, 0);
    assert!(!cache.get_bool("task", 1));
}

#[test]
fn a_later_write_replaces_the_mark() {
    let mut cache = SentinelCache::new();
    cache.set("task", true, 10, 0);
    cache.set("other", true, 5, 0);
    cache.set("task", true, 1, 0);
    assert!(!cache.get_bool("task", 1_000));
    assert!(cache.get_bool("other", 1_000));
    cache.clear();
    assert!(!cache.get_bool("other", 1_000));
}

#[test]
fn expiry_stops_at_the_last_moment() {
    assert_eq!(expires_at(0, 604_800), 604_800_000);
    assert_eq!(expires_at(-5_000, 5), 0);
    assert_eq!(expires_at(i64::MAX - 999, 1), i64::MAX);
    assert_eq!(expires_at(i64::MAX, u64::MAX), i64::MAX);
    assert_eq!(expires_at(i64::MIN, u64::MAX), i64::MAX);
}

#[test]
fn a_failed_reading_counts_as_not_done() {
    assert!(reading_says_done(Some(true)));
    assert!(!reading_says_done(Some(false)));
    assert!(!reading_says_done(None));
}
