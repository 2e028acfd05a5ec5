use mcp_web_search::parser::{HtmlSearchParser, ParserError};
use mcp_web_search::selectors::{google_selectors, SelectorSet};
use mcp_web_search::types::{CacheConfig, SelectorConfig};

fn config(container: &str) -> SelectorConfig {
    SelectorConfig::build("https://s/?q={query}", container, "h3", "a", "p", Some("span.d"), Some("img"), None, Some("a.next"))
}

#[test]
fn default_set_has_six_engines() {
    let set = SelectorSet::default();
    assert_eq!(set.engine_names(), vec!["google", "duckduckgo", "bing", "brave", "youtube", "yahoo"]);
    assert_eq!(set.get("google"), Some(&google_selectors()));
    assert_eq!(set.get("bing").unwrap().result_container, "li.b_algo");
    assert!(set.get("altavista").is_none());
}

#[test]
fn register_then_get() {
    let mut set = SelectorSet::new();
    set.register("mine".to_string(), config("div.r"));
    set.register("other".to_string(), config("div.o"));
    set.register("mine".to_string(), config("div.m"));
    assert_eq!(set.get("mine").unwrap().result_container, "div.m");
    assert_eq!(set.get("other").unwrap().result_container, "div.o");
    assert_eq!(set.engine_names(), vec!["mine", "other"]);
}

#[test]
fn set_from_entries_later_wins() {
    let set = SelectorSet::from_entries(vec![
        ("a".to_string(), config("div.1")),
        ("b".to_string(), config("div.2")),
        ("a".to_string(), config("div.3")),
    ]);
    assert_eq!(set.get("a").unwrap().result_container, "div.3");
    assert_eq!(set.get("b").unwrap().result_container, "div.2");
}

#[test]
fn parser_registers_valid_selectors_only() {
    let mut p = HtmlSearchParser::new();
    assert_eq!(p.register_engine("ok", &config("div.r")), Ok(()));
    match p.register_engine("bad", &config("div[")) {
        Err(ParserError::InvalidSelector(sel, _)) => assert_eq!(sel, "div["),
        other => panic!("unexpected {:?}", other),
    }
    assert_eq!(p.parse("bad", "<div class=\"r\"><h3>x</h3></div>", "https://b"), Err(ParserError::NoResults));
}

#[test]
fn parser_reads_dates_thumbnails_and_next_page() {
    let mut p = HtmlSearchParser::new();
    p.register_engine("e", &config("div.r")).unwrap();
    let html = r#"<div class="r"><h3>T</h3><a href="/x">l</a><p>S</p><span class="d"> 2 days ago </span><img src="/i.png"></div>
        <div class="r"><p>no title, no link</p></div>
        <a class="next" href="?page=2">n</a>"#;
    let results = p.parse("e", html, "https://base.org").unwrap();
    assert_eq!(results.len(), 1);
    assert_eq!(results[0].title, "T");
    assert_eq!(results[0].url, "https://base.org/x");
    assert_eq!(results[0].snippet, "S");
    assert_eq!(results[0].published_date, Some("2 days ago".to_string()));
    assert_eq!(results[0].thumbnail, Some("/i.png".to_string()));
    assert_eq!(p.extract_next_page("e", html), Some("?page=2".to_string()));
    assert_eq!(p.extract_next_page("none", html), None);
}

#[test]
fn parser_error_messages() {
    assert_eq!(ParserError::NoResults.message(), "No results found");
    assert_eq!(ParserError::UrlExtraction("x".to_string()).message(), "Failed to extract URL: x");
    assert_eq!(
        ParserError::InvalidSelector("a[".to_string(), "bad".to_string()).message(),
        "Invalid selector 'a[': bad"
    );
}

#[test]
fn cache_defaults() {
    let c = CacheConfig::default();
    assert!(c.enabled);
    assert_eq!(c.ttl_seconds, 3600);
    assert_eq!(c.max_entries, 10000);
}

#[test]
fn parser_reads_links_from_the_asked_attribute() {
    let mut p = HtmlSearchParser::new();
    p.register_engine("e", &config("div.r")).unwrap();
    let html = r#"<div class="r"><h3>T</h3><a href="/h" data-u="https://d.org/">l</a><p>S</p></div>"#;
    assert_eq!(p.parse("e", html, "https://b.org").unwrap()[0].url, "https://b.org/h");
    assert_eq!(p.parse_with_link_attr("e", html, "https://b.org", "data-u").unwrap()[0].url, "https://d.org/");
    assert_eq!(p.extract_next_page("e", html), None);
}

#[test]
fn registrations_keep_each_name_once_with_its_last_config() {
    let mut set = SelectorSet::new();
    for (n, c) in [("x", "div.1"), ("y", "div.2"), ("x", "div.3"), ("z", "div.4"), ("y", "div.5")] {
        set.register(n.to_string(), config(c));
    }
    let mut names = set.engine_names();
    names.sort();
    assert_eq!(names, vec!["x", "y", "z"]);
    assert_eq!(set.get("x").unwrap().result_container, "div.3");
    assert_eq!(set.get("y").unwrap().result_container, "div.5");
    assert_eq!(set.get("z").unwrap().result_container, "div.4");
}
