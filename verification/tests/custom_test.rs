use mcp_web_search::custom::{
    default_timeout_ms, default_true, default_url_attr, CustomEngineConfig, CustomSearchEngine,
};
use mcp_web_search::engines::{HttpMethod, SearchEngine};
use mcp_web_search::error::{SearchError, SearchOptions};

fn config(name: &str, template: &str) -> CustomEngineConfig {
    CustomEngineConfig {
        name: name.to_string(),
        description: "Test".to_string(),
        base_url: "https://test.com".to_string(),
        search_url_template: template.to_string(),
        result_container: "div.r".to_string(),
        title_selector: "h3".to_string(),
        url_selector: "a".to_string(),
        snippet_selector: "p".to_string(),
        date_selector: None,
        thumbnail_selector: None,
        next_page_selector: None,
        headers: Vec::new(),
        user_agent: None,
        timeout_ms: default_timeout_ms(),
        url_attr: default_url_attr(),
        enabled: default_true(),
    }
}

#[test]
fn test_build_url() {
    let config = config(
        "test",
        "https://test.com/search?q={query}&lang={lang}&region={region}&page={page}",
    );
    let engine = CustomSearchEngine::new(config).unwrap();

    let options = SearchOptions {
        language: Some("de".to_string()),
        region: Some("at".to_string()),
        page: Some(2),
        page_size: 10,
        ..Default::default()
    };

    let url = engine.build_url("rust programming", &options);
    assert!(url.contains("rust%20programming") || url.contains("rust+programming"));
    assert!(url.contains("lang=de"));
    assert!(url.contains("region=at"));
    assert!(url.contains("page=2"));
}

#[test]
fn plugin_defaults() {
    assert_eq!(default_timeout_ms(), 10000);
    assert_eq!(default_url_attr(), "href");
    assert!(default_true());
}

#[test]
fn build_url_fills_every_placeholder() {
    let engine = CustomSearchEngine::new(config(
        "t",
        "https://t.com/?q={query}&l={lang}&r={region}&p={page}&n={page_size}&f={first}&q2={query}",
    ))
    .unwrap();
    let options = SearchOptions { page: Some(3), page_size: 20, ..Default::default() };
    let url = engine.build_url("a&b", &options);
    assert_eq!(url, "https://t.com/?q=a%26b&l=en&r=us&p=3&n=20&f=61&q2=a%26b");
}

#[test]
fn invalid_selector_is_a_config_error() {
    let mut c = config("broken", "https://t.com/?q={query}");
    c.title_selector = "h3[".to_string();
    match CustomSearchEngine::new(c) {
        Err(SearchError::Config(m)) => {
            assert!(m.starts_with("Invalid CSS selector for engine 'broken': Invalid selector 'h3[': "));
        }
        _ => panic!("expected a config error"),
    }
}

#[test]
fn request_sends_plugin_headers_first() {
    let mut c = config("h", "https://t.com/?q={query}");
    c.headers = vec![("X-Key".to_string(), "v".to_string())];
    c.user_agent = Some("agent/1".to_string());
    c.timeout_ms = 15000;
    let engine = CustomSearchEngine::new(c).unwrap();
    let r = engine.request("q", &SearchOptions::default());
    assert_eq!(r.method, HttpMethod::Get);
    assert_eq!(r.url, "https://t.com/?q=q");
    assert_eq!(
        r.headers,
        vec![
            ("X-Key".to_string(), "v".to_string()),
            ("User-Agent".to_string(), "agent/1".to_string()),
            ("Accept".to_string(), "text/html,application/xhtml+xml".to_string()),
            ("Accept-Language".to_string(), "en-US,en;q=0.9".to_string()),
        ]
    );
    assert_eq!(r.timeout_ms, Some(15000));
    assert!(r.form.is_empty());
}

#[test]
fn custom_engine_reports_its_config() {
    let mut c = config("mine", "https://t.com/?q={query}");
    c.enabled = false;
    let engine = CustomSearchEngine::new(c).unwrap();
    assert_eq!(engine.name(), "mine");
    assert_eq!(engine.base_url(), "https://test.com");
    assert!(!engine.is_available());
    assert_eq!(engine.html_engine().name(), "mine");
}

#[test]
fn custom_engine_reads_its_pages() {
    let mut c = config("mine", "https://t.com/?q={query}");
    c.next_page_selector = Some("a.next".to_string());
    let engine = CustomSearchEngine::new(c).unwrap();
    let html = r#"<html><body>
        <div class="r"><h3> First </h3><a href="/one">x</a><p> one </p></div>
        <div class="r"><h3>Second</h3><a href="https://two.org/">y</a><p>two</p></div>
        <a class="next" href="/page2">next</a>
        </body></html>"#;
    let resp = engine.html_engine().respond("q", html, 7).unwrap();
    assert_eq!(resp.engine, "mine");
    assert_eq!(resp.results.len(), 2);
    assert_eq!(resp.results[0].title, "First");
    assert_eq!(resp.results[0].url, "https://test.com/one");
    assert_eq!(resp.results[0].snippet, "one");
    assert_eq!(resp.results[0].position, Some(1));
    assert_eq!(resp.results[1].url, "https://two.org/");
    assert_eq!(resp.results[1].position, Some(2));
    assert_eq!(resp.total_results, Some(2));
    assert_eq!(resp.search_time_ms, 7);
    assert_eq!(resp.next_page_token, Some("/page2".to_string()));
}

#[test]
fn plugin_link_attribute_is_read() {
    let mut c = config("attr", "https://t.com/?q={query}");
    c.url_attr = "data-u".to_string();
    let engine = CustomSearchEngine::new(c).unwrap();
    let html = "<div class='r'><h3>T</h3><a data-u='https://a.com/'>x</a></div>";
    let resp = engine.html_engine().respond("q", html, 0).unwrap();
    assert_eq!(resp.results.len(), 1);
    assert_eq!(resp.results[0].title, "T");
    assert_eq!(resp.results[0].url, "https://a.com/");
}

#[test]
fn plugin_file_names() {
    assert!(mcp_web_search::custom::is_plugin_file_name("startpage.toml"));
    assert!(mcp_web_search::custom::is_plugin_file_name("a.b.toml"));
    assert!(mcp_web_search::custom::is_plugin_file_name("..toml"));
    assert!(!mcp_web_search::custom::is_plugin_file_name(".toml"));
    assert!(!mcp_web_search::custom::is_plugin_file_name("toml"));
    assert!(!mcp_web_search::custom::is_plugin_file_name("a.toml.bak"));
    assert!(!mcp_web_search::custom::is_plugin_file_name("a.TOML"));
}
