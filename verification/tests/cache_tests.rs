use cacherch::cache::{cache_key, get_cached_results, set_cached_results, CacheEntry, StoreReply};
use cacherch::types::SearchResult;

fn sample() -> Vec<SearchResult> {
    vec![
        SearchResult::new("a.txt".to_string(), "/docs/a.txt".to_string(), 1.5f32.to_bits()),
        SearchResult::new("b.txt".to_string(), "/docs/b.txt".to_string(), 0.25f32.to_bits()),
    ]
}

#[test]
fn key_is_prefix_and_raw_query() {
    assert_eq!(cache_key("banana"), "query:banana");
    assert_eq!(cache_key(""), "query:");
    assert_eq!(cache_key("  Banana split "), "query:  Banana split ");
}

#[test]
fn key_is_case_and_whitespace_sensitive() {
    assert_ne!(cache_key("banana"), cache_key("Banana"));
    assert_ne!(cache_key("banana"), cache_key("banana "));
    assert_ne!(cache_key("a b"), cache_key("a  b"));
}

#[test]
fn entry_expires_ttl_seconds_after_now() {
    let entry = set_cached_results("query:banana", &sample(), 30, 100);
    assert_eq!(entry.key, "query:banana");
    assert_eq!(entry.value, sample());
    assert_eq!(entry.expires_at, 130);
}

#[test]
fn entry_expiry_does_not_overflow() {
    let entry = set_cached_results("k", &sample(), usize::MAX, u64::MAX);
    assert_eq!(entry.expires_at, u64::MAX as u128 + usize::MAX as u128);
    assert_eq!(
        get_cached_results(StoreReply::Found(entry), "k", u64::MAX),
        Some(sample())
    );
}

#[test]
fn write_then_read_returns_value_unchanged() {
    let entry = set_cached_results("query:banana", &sample(), 30, 100);
    let got = get_cached_results(StoreReply::Found(entry), "query:banana", 100);
    assert_eq!(got, Some(sample()));
    let entry = set_cached_results("query:banana", &sample(), 30, 100);
    let got = get_cached_results(StoreReply::Found(entry), "query:banana", 129);
    assert_eq!(got, Some(sample()));
}

#[test]
fn read_at_expiry_is_absent() {
    let entry = set_cached_results("query:banana", &sample(), 30, 100);
    assert_eq!(get_cached_results(StoreReply::Found(entry), "query:banana", 130), None);
    let entry = set_cached_results("query:banana", &sample(), 30, 100);
    assert_eq!(get_cached_results(StoreReply::Found(entry), "query:banana", 1000), None);
}

#[test]
fn zero_ttl_is_never_served() {
    let entry = set_cached_results("k", &sample(), 0, 100);
    assert_eq!(get_cached_results(StoreReply::Found(entry), "k", 100), None);
}

#[test]
fn entry_for_another_key_is_a_miss() {
    let entry = CacheEntry { key: "query:apple".to_string(), value: sample(), expires_at: 500 };
    assert_eq!(get_cached_results(StoreReply::Found(entry), "query:banana", 100), None);
}

#[test]
fn missing_entry_is_a_miss() {
    assert_eq!(get_cached_results(StoreReply::Missing, "query:banana", 100), None);
}

#[test]
fn store_failure_is_a_miss() {
    let reply = StoreReply::Failed("connection refused".to_string());
    assert_eq!(get_cached_results(reply, "query:banana", 100), None);
}

#[test]
fn empty_result_list_round_trips() {
    let entry = set_cached_results("k", &Vec::new(), 5, 7);
    assert_eq!(get_cached_results(StoreReply::Found(entry), "k", 8), Some(Vec::new()));
}
