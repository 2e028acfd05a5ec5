use mcp_web_search::analytics::SearchAnalytics;
use mcp_web_search::error::{SearchError, SearchResponse};

#[test]
fn counters_start_at_zero() {
    let a = SearchAnalytics::new();
    let t = a.totals();
    assert_eq!(t.total_searches, 0);
    assert_eq!(t.total_results, 0);
    assert_eq!(t.cache_hits, 0);
    assert_eq!(t.cache_misses, 0);
    assert_eq!(t.deduped_results, 0);
    assert!(t.engines_used.is_empty());
    assert_eq!(t.total_latency_ms, 0);
    assert_eq!(a.engine_counts("google"), None);
}

#[test]
fn searches_and_errors_are_counted_per_engine() {
    let mut a = SearchAnalytics::new();
    a.record_search("google", 100, 10);
    a.record_search("bing", 50, 7);
    a.record_search("google", 300, 5);
    a.record_error("google");
    a.record_error("yahoo");
    let g = a.engine_counts("google").unwrap();
    assert_eq!(g.total_searches, 2);
    assert_eq!(g.total_latency_ms, 400);
    assert_eq!(g.total_results, 15);
    assert_eq!(g.errors, 1);
    let y = a.engine_counts("yahoo").unwrap();
    assert_eq!(y.total_searches, 0);
    assert_eq!(y.errors, 1);
    let t = a.totals();
    assert_eq!(t.total_searches, 3);
    assert_eq!(t.total_results, 22);
    assert_eq!(t.engines_used, vec!["google".to_string(), "bing".to_string(), "yahoo".to_string()]);
    assert_eq!(t.total_latency_ms, 450);
    assert_eq!(t.engine_searches, 3);
}

#[test]
fn cache_and_dedup_counters() {
    let mut a = SearchAnalytics::new();
    a.record_cache_hit();
    a.record_cache_hit();
    a.record_cache_miss();
    a.record_dedup(4);
    a.record_dedup(0);
    let t = a.totals();
    assert_eq!(t.cache_hits, 2);
    assert_eq!(t.cache_misses, 1);
    assert_eq!(t.deduped_results, 4);
    assert_eq!(t.total_searches, 0);
}

#[test]
fn counters_wrap_around() {
    let mut a = SearchAnalytics::new();
    a.record_dedup(i64::MAX);
    a.record_dedup(1);
    assert_eq!(a.totals().deduped_results, i64::MIN);
}

#[test]
fn successful_responses_are_recorded() {
    let mut a = SearchAnalytics::new();
    let ok = SearchResponse {
        query: "q".to_string(),
        results: vec![],
        total_results: Some(0),
        engine: "brave".to_string(),
        search_time_ms: 30,
        next_page_token: None,
    };
    a.record_responses(&vec![Ok(ok), Err(SearchError::Timeout(1))]);
    let t = a.totals();
    assert_eq!(t.total_searches, 1);
    assert_eq!(t.engines_used, vec!["brave".to_string()]);
    assert_eq!(a.engine_counts("brave").unwrap().total_latency_ms, 30);
}

#[test]
fn an_error_changes_only_the_error_count() {
    let mut a = SearchAnalytics::new();
    a.record_search("bing", 40, 3);
    a.record_cache_miss();
    let before = a.totals();
    let b0 = a.engine_counts("bing").unwrap();
    a.record_error("bing");
    let after = a.totals();
    assert_eq!(before, after);
    let b1 = a.engine_counts("bing").unwrap();
    assert_eq!(b1.errors, b0.errors + 1);
    assert_eq!(b1.total_searches, b0.total_searches);
    assert_eq!(b1.total_latency_ms, b0.total_latency_ms);
}
