use mcp_web_search::engines::{
    Reply,
    check_status, status_display, BingSearch, BraveSearch, DuckDuckGoSearch, GoogleSearch,
    HttpMethod, SearchEngine, YahooSearch, YouTubeSearch,
};
use mcp_web_search::error::{SearchError, SearchOptions};
use mcp_web_search::user_agents::{random_desktop, random_mobile};

#[test]
fn google_url_with_defaults() {
    let g = GoogleSearch::new();
    let url = g.build_url("rust programming", &SearchOptions { page_size: 10, ..Default::default() });
    assert_eq!(url, "https://www.google.com/search?q=rust%20programming&hl=en&start=0");
}

#[test]
fn google_url_with_region_page_and_safe_search() {
    let g = GoogleSearch::new();
    let options = SearchOptions {
        language: Some("de".to_string()),
        region: Some("at".to_string()),
        page: Some(2),
        page_size: 10,
        safe_search: Some(true),
        ..Default::default()
    };
    assert_eq!(
        g.build_url("q", &options),
        "https://www.google.com/search?q=q&hl=de&start=20&gl=at&safe=active"
    );
}

#[test]
fn bing_url_names_the_market() {
    let b = BingSearch::new();
    let options = SearchOptions {
        language: Some("de".to_string()),
        region: Some("at".to_string()),
        page: Some(1),
        page_size: 10,
        ..Default::default()
    };
    assert_eq!(
        b.build_url("rust", &options),
        "https://www.bing.com/search?q=rust&setlang=de&mkt=DE-AT&first=11"
    );
    assert_eq!(
        b.build_url("rust", &SearchOptions::default()),
        "https://www.bing.com/search?q=rust&setlang=en&mkt=EN-US&first=1"
    );
}

#[test]
fn duckduckgo_posts_a_form() {
    let d = DuckDuckGoSearch::new();
    let r = d.request("rust lang", &SearchOptions { language: Some("wt-wt".to_string()), ..Default::default() });
    assert_eq!(r.method, HttpMethod::Post);
    assert_eq!(r.url, "https://html.duckduckgo.com/html/");
    assert_eq!(
        r.form,
        vec![("q".to_string(), "rust lang".to_string()), ("kl".to_string(), "wt-wt".to_string())]
    );
    assert_eq!(r.headers.len(), 2);
    assert_eq!(r.headers[0].0, "User-Agent");
    assert_eq!(r.headers[1], ("Accept".to_string(), "text/html".to_string()));
    let plain = d.request("x", &SearchOptions::default());
    assert_eq!(plain.form, vec![("q".to_string(), "x".to_string())]);
}

#[test]
fn brave_yahoo_youtube_addresses() {
    let o = SearchOptions::default();
    assert_eq!(BraveSearch::new().request("a b", &o).url, "https://search.brave.com/search?q=a%20b");
    assert_eq!(YahooSearch::new().request("a b", &o).url, "https://search.yahoo.com/search?p=a%20b");
    assert_eq!(
        YouTubeSearch::new().request("a b", &o).url,
        "https://www.youtube.com/results?search_query=a%20b"
    );
}

#[test]
fn browser_requests_carry_browser_headers() {
    let r = GoogleSearch::new().request("x", &SearchOptions::default());
    assert_eq!(r.method, HttpMethod::Get);
    assert_eq!(r.headers.len(), 3);
    assert_eq!(r.headers[0].0, "User-Agent");
    assert!(r.headers[0].1.contains("Mozilla/5.0"));
    assert_eq!(r.headers[1], ("Accept".to_string(), "text/html,application/xhtml+xml".to_string()));
    assert_eq!(r.headers[2], ("Accept-Language".to_string(), "en-US,en;q=0.9".to_string()));
    assert!(r.form.is_empty());
    assert_eq!(r.timeout_ms, None);
}

#[test]
fn engine_names_and_sites() {
    assert_eq!(GoogleSearch::new().name(), "google");
    assert_eq!(DuckDuckGoSearch::new().name(), "duckduckgo");
    assert_eq!(BingSearch::new().base_url(), "https://www.bing.com");
    assert_eq!(BraveSearch::new().base_url(), "https://search.brave.com");
    assert_eq!(YouTubeSearch::new().name(), "youtube");
    assert_eq!(YahooSearch::new().base_url(), "https://search.yahoo.com");
    assert!(GoogleSearch::new().is_available());
}

#[test]
fn status_codes() {
    assert_eq!(check_status("bing", 200, true), Ok(()));
    assert_eq!(check_status("bing", 204, true), Ok(()));
    assert_eq!(
        check_status("bing", 429, true),
        Err(SearchError::RateLimited { engine: "bing".to_string() })
    );
    assert_eq!(
        check_status("bing", 403, true),
        Err(SearchError::Blocked { engine: "bing".to_string() })
    );
    assert_eq!(
        check_status("bing", 503, true),
        Err(SearchError::Blocked { engine: "bing".to_string() })
    );
    assert_eq!(
        check_status("ddg", 503, false),
        Err(SearchError::EngineUnavailable {
            engine: "ddg".to_string(),
            reason: "HTTP 503 Service Unavailable".to_string()
        })
    );
    assert_eq!(
        check_status("x", 404, true),
        Err(SearchError::EngineUnavailable {
            engine: "x".to_string(),
            reason: "HTTP 404 Not Found".to_string()
        })
    );
}

#[test]
fn status_display_of_unknown_code() {
    assert_eq!(status_display(599), "599 <unknown status code>");
    assert_eq!(status_display(200), "200 OK");
}

#[test]
fn engine_status_goes_by_blocking_report() {
    assert_eq!(
        GoogleSearch::new().html_engine().check_status(403),
        Err(SearchError::Blocked { engine: "google".to_string() })
    );
    assert!(matches!(
        DuckDuckGoSearch::new().html_engine().check_status(403),
        Err(SearchError::EngineUnavailable { .. })
    ));
}

#[test]
fn bing_page_is_read() {
    let html = r#"<html><body><ol>
        <li class="b_algo"><h2><a href="https://www.bing.com/ck/a?!&&p=1&u=a1aHR0cHM6Ly9ydXN0LWxhbmcub3JnLw&ntb=1">Rust</a></h2>
        <div class="b_caption"><p>A language</p></div></li>
        <li class="b_algo"><h2><a href="https://doc.rust-lang.org/">Docs</a></h2>
        <div class="b_caption"><p>The docs</p></div></li>
        </ol><a class="sb_pagN" href="/search?q=rust&first=11">Next</a></body></html>"#;
    let resp = BingSearch::new().html_engine().respond("rust", html, 12).unwrap();
    assert_eq!(resp.query, "rust");
    assert_eq!(resp.engine, "bing");
    assert_eq!(resp.results.len(), 2);
    assert_eq!(resp.results[0].url, "https://rust-lang.org/");
    assert_eq!(resp.results[0].title, "Rust");
    assert_eq!(resp.results[0].snippet, "A language");
    assert_eq!(resp.results[0].engine, "bing");
    assert_eq!(resp.results[1].position, Some(2));
    assert_eq!(resp.total_results, Some(2));
    assert_eq!(resp.next_page_token, Some("/search?q=rust&first=11".to_string()));
}

#[test]
fn empty_page_is_a_parse_error() {
    let resp = GoogleSearch::new().html_engine().respond("rust", "<html></html>", 1);
    assert_eq!(resp, Err(SearchError::Parse("No results found".to_string())));
}

#[test]
fn youtube_links_get_the_host() {
    let html = r#"<div id="contents"><ytd-video-renderer>
        <a id="video-title" href="/watch?v=abc">Video</a>
        <div id="description-text">About</div>
        </ytd-video-renderer></div>"#;
    let resp = YouTubeSearch::new().html_engine().respond("v", html, 0).unwrap();
    assert_eq!(resp.results.len(), 1);
    assert_eq!(resp.results[0].url, "https://www.youtube.com/watch?v=abc");
    assert_eq!(resp.next_page_token, None);
}

#[test]
fn user_agents_are_browsers() {
    assert!(random_desktop().starts_with("Mozilla/5.0"));
    assert!(random_mobile().starts_with("Mozilla/5.0"));
}

#[test]
fn answers_follow_the_reply() {
    let g = GoogleSearch::new();
    let h = g.html_engine();
    assert_eq!(
        h.answer("q", Reply::Unsent("connection refused".to_string()), 1),
        Err(SearchError::Network("connection refused".to_string()))
    );
    assert_eq!(
        h.answer("q", Reply::Received { status: 429, body: Ok(String::new()) }, 1),
        Err(SearchError::RateLimited { engine: "google".to_string() })
    );
    assert_eq!(
        h.answer("q", Reply::Received { status: 200, body: Err("reset".to_string()) }, 1),
        Err(SearchError::Network("reset".to_string()))
    );
    let html = r#"<div class="g"><a href="https://r.org/"><h3>R</h3></a><div class="VwiC3b">s</div></div>"#;
    let resp = h
        .answer("q", Reply::Received { status: 200, body: Ok(html.to_string()) }, 4)
        .unwrap();
    assert_eq!(resp.results.len(), 1);
    assert_eq!(resp.results[0].url, "https://r.org/");
    assert_eq!(resp.results[0].title, "R");
    assert_eq!(resp.results[0].snippet, "s");
    assert_eq!(resp.search_time_ms, 4);
}

#[test]
fn builtin_engines_read_links_from_href() {
    let html = r#"<ol><li class="b_algo"><h2><a href="https://only.link/" data-x="no"></a></h2></li></ol>"#;
    let resp = BingSearch::new().html_engine().respond("q", html, 0).unwrap();
    assert_eq!(resp.results.len(), 1);
    assert_eq!(resp.results[0].url, "https://only.link/");
    assert_eq!(resp.results[0].title, "");
}
