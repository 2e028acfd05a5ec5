use mcp_web_search::aggregator::SearchAggregator;
use mcp_web_search::engines::SearchEngine;
use mcp_web_search::error::{SearchError, SearchOptions, SearchResponse};
use mcp_web_search::registry::{create_engine, WebEngine};
use mcp_web_search::searxng::SearXNGSearch;

#[test]
fn create_engine_knows_builtin_names_and_aliases() {
    for (asked, name) in [
        ("google", "google"),
        ("Google", "google"),
        ("duckduckgo", "duckduckgo"),
        ("DDG", "duckduckgo"),
        ("bing", "bing"),
        ("BRAVE", "brave"),
        ("yt", "youtube"),
        ("YouTube", "youtube"),
        ("yahoo", "yahoo"),
    ] {
        let e = create_engine(asked).unwrap();
        assert_eq!(e.name(), name);
    }
    assert!(create_engine("altavista").is_none());
    assert!(create_engine("searxng").is_none());
}

#[test]
fn web_engine_dispatches_requests() {
    let e = create_engine("brave").unwrap();
    let r = e.request("x", &SearchOptions::default());
    assert_eq!(r.url, "https://search.brave.com/search?q=x");
    assert!(e.html_engine().is_some());
    let s = WebEngine::SearXNG(SearXNGSearch::with_instance("https://sx.example"));
    assert!(s.html_engine().is_none());
    assert_eq!(s.name(), "searxng");
    assert_eq!(s.base_url(), "https://sx.example");
    assert_eq!(
        s.check_status(403),
        Err(SearchError::Blocked { engine: "searxng".to_string() })
    );
}

#[test]
fn aggregator_finds_engines_by_name() {
    let mut agg = SearchAggregator::new();
    assert!(agg.engine_names().is_empty());
    agg.add_engine(create_engine("google").unwrap());
    agg.add_engine(create_engine("bing").unwrap());
    assert_eq!(agg.engine_names(), vec!["google", "bing"]);
    assert_eq!(agg.engine_count(), 2);
    assert_eq!(agg.find_engine("bing").unwrap(), 1);
    assert_eq!(agg.engine_at(agg.find_engine("google").unwrap()).name(), "google");
    match agg.find_engine("yahoo") {
        Err(SearchError::EngineUnavailable { engine, reason }) => {
            assert_eq!(engine, "yahoo");
            assert_eq!(reason, "Engine not found");
        }
        _ => panic!("expected an unavailable engine"),
    }
    assert_eq!(agg.engine_at(0).name(), "google");
}

fn response(engine: &str, n: usize) -> SearchResponse {
    let results = (0..n)
        .map(|i| mcp_web_search::error::SearchResult {
            title: format!("t{}", i),
            url: format!("https://{}.org/{}", engine, i),
            snippet: String::new(),
            engine: engine.to_string(),
            published_date: None,
            thumbnail: None,
            position: Some(i + 1),
        })
        .collect();
    SearchResponse {
        query: "q".to_string(),
        results,
        total_results: Some(n),
        engine: engine.to_string(),
        search_time_ms: 1,
        next_page_token: None,
    }
}

#[test]
fn merged_outcomes_keep_successes_in_order() {
    let outcomes = vec![
        Ok(response("google", 2)),
        Err(SearchError::Timeout(5000)),
        Ok(response("bing", 3)),
    ];
    let multi = SearchAggregator::merge_outcomes("q", outcomes, 42);
    assert_eq!(multi.query, "q");
    assert_eq!(multi.responses.len(), 2);
    assert_eq!(multi.responses[0].engine, "google");
    assert_eq!(multi.responses[1].engine, "bing");
    assert_eq!(multi.total_results, 5);
    assert_eq!(multi.search_time_ms, 42);
}

#[test]
fn merged_outcomes_of_failures_are_empty() {
    let multi = SearchAggregator::merge_outcomes("q", vec![Err(SearchError::Network("x".to_string()))], 1);
    assert!(multi.responses.is_empty());
    assert_eq!(multi.total_results, 0);
}
