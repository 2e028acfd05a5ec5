use mcp_web_search::error::{SearchError, SearchResponse, SearchResult, TimeRange};
use mcp_web_search::tools::{
    default_export_format, engine_health, export_csv, export_format, export_markdown,
    failed_search_output, merge_search_results, multi_search_options, multi_search_output,
    search_options, search_output, ExportFormat, MultiSearchInput, MultiSearchQuery, SearchInput,
};

fn result(url: &str, title: &str, pos: Option<usize>) -> SearchResult {
    SearchResult {
        title: title.to_string(),
        url: url.to_string(),
        snippet: format!("about {}", title),
        engine: "e".to_string(),
        published_date: None,
        thumbnail: Some("t.png".to_string()),
        position: pos,
    }
}

fn response(engine: &str, results: Vec<SearchResult>) -> SearchResponse {
    SearchResponse {
        query: "rust".to_string(),
        total_results: Some(results.len()),
        results,
        engine: engine.to_string(),
        search_time_ms: 5,
        next_page_token: None,
    }
}

#[test]
fn dedup_keeps_first_of_each_link_and_renumbers() {
    let outcomes = vec![
        Ok(response("a", vec![result("https://x.org", "X", Some(1)), result("https://y.org", "Y", Some(2))])),
        Err(SearchError::Timeout(1)),
        Ok(response("b", vec![result("https://y.org", "Y2", Some(1)), result("https://z.org", "Z", Some(2))])),
    ];
    let (results, removed) = merge_search_results(outcomes, true);
    let urls: Vec<&str> = results.iter().map(|r| r.url.as_str()).collect();
    assert_eq!(urls, vec!["https://x.org", "https://y.org", "https://z.org"]);
    assert_eq!(results[1].title, "Y");
    let positions: Vec<Option<usize>> = results.iter().map(|r| r.position).collect();
    assert_eq!(positions, vec![Some(1), Some(2), Some(3)]);
    assert_eq!(removed, 1);
}

#[test]
fn without_dedup_all_results_stay() {
    let outcomes = vec![
        Ok(response("a", vec![result("https://x.org", "X", None)])),
        Ok(response("b", vec![result("https://x.org", "X", None)])),
    ];
    let (results, removed) = merge_search_results(outcomes, false);
    assert_eq!(results.len(), 2);
    assert_eq!(results[1].position, Some(2));
    assert_eq!(removed, 0);
}

#[test]
fn multi_search_answer() {
    let input = MultiSearchInput {
        queries: vec![
            MultiSearchQuery { engine: "a".to_string(), query: "first".to_string() },
            MultiSearchQuery { engine: "b".to_string(), query: "second".to_string() },
        ],
        language: None,
        region: None,
        time_range: None,
        safe_search: None,
        dedup: true,
    };
    let outcomes = vec![
        Ok(response("a", vec![result("https://x.org", "X", Some(1))])),
        Ok(response("b", vec![result("https://x.org", "X", Some(1))])),
    ];
    let out = multi_search_output(&input, outcomes, 77);
    assert_eq!(out.responses.len(), 1);
    assert_eq!(out.responses[0].query, "first");
    assert_eq!(out.responses[0].engine, "multi");
    assert_eq!(out.responses[0].total_results, 1);
    assert_eq!(out.total_results, 1);
    assert_eq!(out.duplicates_removed, 1);
    assert_eq!(out.search_time_ms, 77);
    let empty = MultiSearchInput { queries: vec![], ..input };
    assert_eq!(multi_search_output(&empty, vec![], 0).responses[0].query, "");
}

#[test]
fn search_options_from_input() {
    let input = SearchInput {
        query: "q".to_string(),
        engine: None,
        language: Some("de".to_string()),
        region: None,
        page_size: 20,
        page: Some(1),
        time_range: Some("7D".to_string()),
        safe_search: Some(true),
    };
    let o = search_options(&input);
    assert_eq!(o.language, Some("de".to_string()));
    assert_eq!(o.page_size, 20);
    assert_eq!(o.page, Some(1));
    assert_eq!(o.time_range, Some(TimeRange::Week));
    assert_eq!(o.safe_search, Some(true));
    let bad = SearchInput { time_range: Some("decade".to_string()), ..input };
    assert_eq!(search_options(&bad).time_range, None);
}

#[test]
fn multi_search_options_ask_ten_of_first_page() {
    let input = MultiSearchInput {
        queries: vec![],
        language: Some("en".to_string()),
        region: Some("gb".to_string()),
        time_range: Some("today".to_string()),
        safe_search: None,
        dedup: false,
    };
    let o = multi_search_options(&input);
    assert_eq!(o.page_size, 10);
    assert_eq!(o.page, None);
    assert_eq!(o.region, Some("gb".to_string()));
    assert_eq!(o.time_range, Some(TimeRange::Day));
}

#[test]
fn search_output_drops_thumbnails() {
    let out = search_output(response("a", vec![result("https://x.org", "X", Some(1))]));
    assert_eq!(out.query, "rust");
    assert_eq!(out.engine, "a");
    assert_eq!(out.total_results, 1);
    assert_eq!(out.results[0].url, "https://x.org");
    assert_eq!(out.results[0].position, Some(1));
    let mut no_total = response("a", vec![]);
    no_total.total_results = None;
    assert_eq!(search_output(no_total).total_results, 0);
}

#[test]
fn failed_search_output_names_the_engine() {
    let out = failed_search_output("q".to_string(), None);
    assert_eq!(out.engine, "unknown");
    assert!(out.results.is_empty());
    assert_eq!(failed_search_output("q".to_string(), Some("bing".to_string())).engine, "bing");
}

#[test]
fn health_of_engines() {
    let ok = engine_health("a".to_string(), &Ok(response("a", vec![result("u", "t", None)])), 12);
    assert_eq!(ok.status, "healthy");
    assert_eq!(ok.results_count, 1);
    assert_eq!(ok.error, None);
    assert_eq!(ok.latency_ms, 12);
    let bad = engine_health("b".to_string(), &Err(SearchError::RateLimited { engine: "b".to_string() }), 3);
    assert_eq!(bad.status, "unhealthy");
    assert_eq!(bad.results_count, 0);
    assert_eq!(bad.error, Some("Rate limited by b".to_string()));
}

#[test]
fn export_formats() {
    assert_eq!(default_export_format(), "json");
    assert_eq!(export_format("csv"), ExportFormat::Csv);
    assert_eq!(export_format("markdown"), ExportFormat::Markdown);
    assert_eq!(export_format("json"), ExportFormat::Json);
    assert_eq!(export_format("xml"), ExportFormat::Json);
}

#[test]
fn csv_export() {
    let mut r = result("https://x.org", "Say \"hi\"", Some(1));
    r.snippet = "a \"b\"".to_string();
    r.published_date = Some("2024".to_string());
    let r2 = result("https://y.org", "Y", None);
    let csv = export_csv(&response("e", vec![r, r2]));
    assert_eq!(
        csv,
        "position,title,url,snippet,engine,published_date\n\
         1,\"Say \"\"hi\"\"\",\"https://x.org\",\"a \"\"b\"\"\",\"e\",\"2024\"\n\
         0,\"Y\",\"https://y.org\",\"about Y\",\"e\",\"\"\n"
    );
}

#[test]
fn markdown_export() {
    let md = export_markdown(&response("bing", vec![result("https://x.org", "X", Some(3))]));
    assert_eq!(md, "## Search Results: \"rust\" (bing)\n\n3. **[X](https://x.org)**\n   about X\n\n");
}
