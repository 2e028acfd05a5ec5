use mcp_web_search::error::{MultiSearchResponse, SearchError, SearchResponse};
use mcp_web_search::state::{
    builtin_engine_names, cache_key, first_response, proxy_kind, ProxyConfig, ProxyKind,
};

fn vars(pairs: &[(&str, &str)]) -> Vec<(String, String)> {
    pairs.iter().map(|(k, v)| (k.to_string(), v.to_string())).collect()
}

#[test]
fn proxies_from_environment() {
    let c = ProxyConfig::from_env(&vars(&[
        ("http_proxy", "http://lower:1"),
        ("HTTP_PROXY", "http://upper:1"),
        ("https_proxy", "http://secure:2"),
        ("no_proxy", "localhost"),
        ("PATH", "/bin"),
    ]));
    assert_eq!(c.http_proxy, Some("http://upper:1".to_string()));
    assert_eq!(c.https_proxy, Some("http://secure:2".to_string()));
    assert_eq!(c.socks5_proxy, None);
    assert_eq!(c.no_proxy, Some("localhost".to_string()));
    assert_eq!(c.engine_proxies.len(), 0);
}

#[test]
fn engine_proxy_overrides_global_ones() {
    let mut c = ProxyConfig::default();
    assert_eq!(c.proxy_for_engine("google"), None);
    c.socks5_proxy = Some("socks5://s:1080".to_string());
    assert_eq!(c.proxy_for_engine("google"), Some("socks5://s:1080"));
    c.http_proxy = Some("http://h:8080".to_string());
    assert_eq!(c.proxy_for_engine("google"), Some("http://h:8080"));
    c.https_proxy = Some("http://hs:8443".to_string());
    assert_eq!(c.proxy_for_engine("google"), Some("http://hs:8443"));
    c.engine_proxies.insert("bing".to_string(), "socks5://b:1".to_string());
    assert_eq!(c.proxy_for_engine("bing"), Some("socks5://b:1"));
    assert_eq!(c.proxy_for_engine("google"), Some("http://hs:8443"));
}

#[test]
fn global_proxies_in_order() {
    let mut c = ProxyConfig::default();
    assert!(c.global_proxies().is_empty());
    c.socks5_proxy = Some("socks5://s".to_string());
    c.http_proxy = Some("http://h".to_string());
    assert_eq!(
        c.global_proxies(),
        vec![(ProxyKind::Http, "http://h".to_string()), (ProxyKind::All, "socks5://s".to_string())]
    );
}

#[test]
fn proxy_kinds() {
    assert_eq!(proxy_kind("socks5://p:1"), ProxyKind::All);
    assert_eq!(proxy_kind("https://p:1"), ProxyKind::Https);
    assert_eq!(proxy_kind("http://p:1"), ProxyKind::Http);
    assert_eq!(proxy_kind("p:1"), ProxyKind::Http);
}

#[test]
fn builtin_engines_in_order() {
    assert_eq!(builtin_engine_names(), vec!["google", "duckduckgo", "bing", "brave", "youtube", "yahoo"]);
}

#[test]
fn cache_keys() {
    assert_eq!(cache_key("rust", Some("bing"), "{}"), "rust:bing:{}");
    assert_eq!(cache_key("rust", None, "{\"page_size\":10}"), "rust:multi:{\"page_size\":10}");
}

fn resp(engine: &str) -> SearchResponse {
    SearchResponse {
        query: "q".to_string(),
        results: vec![],
        total_results: None,
        engine: engine.to_string(),
        search_time_ms: 0,
        next_page_token: None,
    }
}

#[test]
fn first_response_or_no_results() {
    let empty = MultiSearchResponse { query: "q".to_string(), responses: vec![], total_results: 0, search_time_ms: 0 };
    assert_eq!(first_response("q", empty), Err(SearchError::NoResults { query: "q".to_string() }));
    let two = MultiSearchResponse {
        query: "q".to_string(),
        responses: vec![resp("a"), resp("b")],
        total_results: 0,
        search_time_ms: 0,
    };
    assert_eq!(first_response("q", two).unwrap().engine, "a");
}
