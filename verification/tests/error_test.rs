use mcp_web_search::error::{default_page_size, default_timeout, parse_time_range, SearchError, TimeRange};

#[test]
fn error_types() {
    assert_eq!(SearchError::Network("x".to_string()).error_type(), "network");
    assert_eq!(SearchError::Parse("x".to_string()).error_type(), "parse");
    assert_eq!(SearchError::RateLimited { engine: "e".to_string() }.error_type(), "rate_limited");
    assert_eq!(
        SearchError::EngineUnavailable { engine: "e".to_string(), reason: "r".to_string() }.error_type(),
        "engine_unavailable"
    );
    assert_eq!(SearchError::NoResults { query: "q".to_string() }.error_type(), "no_results");
    assert_eq!(SearchError::Config("x".to_string()).error_type(), "config");
    assert_eq!(SearchError::Timeout(5).error_type(), "timeout");
    assert_eq!(SearchError::Blocked { engine: "e".to_string() }.error_type(), "blocked");
    assert_eq!(SearchError::Other("x".to_string()).error_type(), "other");
}

#[test]
fn error_messages() {
    assert_eq!(SearchError::Network("down".to_string()).message(), "Network error: down");
    assert_eq!(
        SearchError::EngineUnavailable { engine: "e".to_string(), reason: "Engine not found".to_string() }.message(),
        "Engine unavailable: e — Engine not found"
    );
    assert_eq!(SearchError::Timeout(5000).message(), "Timeout after 5000ms");
    assert_eq!(SearchError::NoResults { query: "q".to_string() }.message(), "No results found for query: q");
    assert_eq!(
        SearchError::Blocked { engine: "bing".to_string() }.message(),
        "Blocked by captcha or bot detection on bing"
    );
    assert_eq!(SearchError::Other("boom".to_string()).message(), "boom");
}

#[test]
fn time_ranges_by_name() {
    assert_eq!(parse_time_range("day"), Some(TimeRange::Day));
    assert_eq!(parse_time_range("24H"), Some(TimeRange::Day));
    assert_eq!(parse_time_range("Today"), Some(TimeRange::Day));
    assert_eq!(parse_time_range("7d"), Some(TimeRange::Week));
    assert_eq!(parse_time_range("MONTH"), Some(TimeRange::Month));
    assert_eq!(parse_time_range("365d"), Some(TimeRange::Year));
    assert_eq!(parse_time_range("fortnight"), None);
    for t in [TimeRange::Day, TimeRange::Week, TimeRange::Month, TimeRange::Year] {
        assert_eq!(parse_time_range(t.as_str()), Some(t));
        assert_eq!(t.to_string(), t.as_str());
    }
}

#[test]
fn option_defaults() {
    assert_eq!(default_page_size(), 10);
    assert_eq!(default_timeout(), 5000);
}

#[test]
fn upper_case_time_range_names() {
    assert_eq!(parse_time_range("WEEK"), Some(TimeRange::Week));
    assert_eq!(parse_time_range("Year"), Some(TimeRange::Year));
}
