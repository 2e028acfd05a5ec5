use mcp_web_search::engines::{HttpMethod, Reply, SearchEngine};
use mcp_web_search::error::{SearchError, SearchOptions, TimeRange};
use mcp_web_search::searxng::{SearXNGSearch, SearxngItem, SearxngPage};

#[test]
fn searxng_default_instance() {
    let s = SearXNGSearch::new(None);
    assert_eq!(s.base_url(), "https://search.sapti.me");
    assert_eq!(s.name(), "searxng");
    assert!(s.is_available());
    let c = SearXNGSearch::new(Some("https://sx.example".to_string()));
    assert_eq!(c.base_url(), "https://sx.example");
}

#[test]
fn searxng_url_counts_pages_from_one() {
    let s = SearXNGSearch::with_instance("https://sx.example");
    assert_eq!(
        s.build_url("rust lang", &SearchOptions::default()),
        "https://sx.example/search?q=rust%20lang&format=json&pageno=1"
    );
    let options = SearchOptions {
        language: Some("fr".to_string()),
        page: Some(2),
        time_range: Some(TimeRange::Week),
        safe_search: Some(false),
        ..Default::default()
    };
    assert_eq!(
        s.build_url("q", &options),
        "https://sx.example/search?q=q&format=json&pageno=3&language=fr&time_range=week&safesearch=0"
    );
    let safe = SearchOptions { safe_search: Some(true), ..Default::default() };
    assert!(s.build_url("q", &safe).ends_with("&safesearch=2"));
}

#[test]
fn searxng_request_accepts_json() {
    let s = SearXNGSearch::with_instance("https://sx.example");
    let r = s.request("q", &SearchOptions::default());
    assert_eq!(r.method, HttpMethod::Get);
    assert_eq!(r.headers, vec![("Accept".to_string(), "application/json".to_string())]);
}

#[test]
fn searxng_answer_is_read() {
    let s = SearXNGSearch::with_instance("https://sx.example");
    let page = SearxngPage {
        results: vec![
            SearxngItem {
                title: "A".to_string(),
                url: "https://a.org".to_string(),
                content: Some("about a".to_string()),
                engine: Some("bing".to_string()),
                published_date: Some("2024-01-01".to_string()),
            },
            SearxngItem {
                title: "B".to_string(),
                url: "https://b.org".to_string(),
                content: None,
                engine: None,
                published_date: None,
            },
        ],
        number_of_results: Some(1234),
    };
    let resp = s.respond("q", Ok(page), 9).unwrap();
    assert_eq!(resp.engine, "searxng");
    assert_eq!(resp.total_results, Some(1234));
    assert_eq!(resp.results.len(), 2);
    assert_eq!(resp.results[0].snippet, "about a");
    assert_eq!(resp.results[0].engine, "bing");
    assert_eq!(resp.results[0].published_date, Some("2024-01-01".to_string()));
    assert_eq!(resp.results[1].snippet, "");
    assert_eq!(resp.results[1].engine, "searxng");
    assert_eq!(resp.results[1].position, Some(2));
    assert_eq!(resp.results[1].thumbnail, None);
    assert_eq!(resp.next_page_token, None);
    assert_eq!(resp.search_time_ms, 9);
}

#[test]
fn searxng_total_defaults_to_result_count() {
    let s = SearXNGSearch::with_instance("https://sx.example");
    let page = SearxngPage { results: vec![], number_of_results: None };
    let resp = s.respond("q", Ok(page), 0).unwrap();
    assert_eq!(resp.total_results, Some(0));
}

#[test]
fn searxng_unreadable_answer_is_a_parse_error() {
    let s = SearXNGSearch::with_instance("https://sx.example");
    assert_eq!(
        s.respond("q", Err("bad json".to_string()), 0),
        Err(SearchError::Parse("bad json".to_string()))
    );
    assert_eq!(
        s.check_status(429),
        Err(SearchError::RateLimited { engine: "searxng".to_string() })
    );
}

#[test]
fn searxng_answers_follow_the_reply() {
    let s = SearXNGSearch::with_instance("https://sx.example");
    assert_eq!(
        s.answer("q", Reply::Unsent("dns".to_string()), 0),
        Err(SearchError::Network("dns".to_string()))
    );
    assert_eq!(
        s.answer("q", Reply::Received { status: 503, body: Err("x".to_string()) }, 0),
        Err(SearchError::Blocked { engine: "searxng".to_string() })
    );
    assert_eq!(
        s.answer("q", Reply::Received { status: 200, body: Err("expected value".to_string()) }, 0),
        Err(SearchError::Parse("expected value".to_string()))
    );
    let page = SearxngPage { results: vec![], number_of_results: Some(5) };
    let resp = s.answer("q", Reply::Received { status: 200, body: Ok(page) }, 3).unwrap();
    assert_eq!(resp.total_results, Some(5));
}
