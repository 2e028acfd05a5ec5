//! Configuration records: plugin metadata, CSS selector sets and the result cache.
use vstd::prelude::*;

verus! {

/// What a plugin says about itself.
#[derive(Debug, Clone, PartialEq, Eq)]
pub struct PluginMetadata {
    pub name: String,
    pub version: String,
    pub description: String,
    pub author: String,
    pub search_engine: String,
    pub base_url: String,
    pub selectors_path: Option<String>,
}

/// Where the parts of each result sit on an engine's result page.
#[derive(Debug, Clone, PartialEq, Eq)]
pub struct SelectorConfig {
    pub search_url: String,
    pub result_container: String,
    pub title_selector: String,
    pub url_selector: String,
    pub snippet_selector: String,
    pub date_selector: Option<String>,
    pub thumbnail_selector: Option<String>,
    pub pagination_selector: Option<String>,
    pub next_page_selector: Option<String>,
}

/// The text of an optional string.
pub open spec fn opt_view(o: Option<String>) -> Option<Seq<char>> {
    match o {
        Some(s) => Some(s@),
        None => None,
    }
}

/// The text of an optional string slice.
pub open spec fn opt_str_view(o: Option<&str>) -> Option<Seq<char>> {
    match o {
        Some(s) => Some(s@),
        None => None,
    }
}

/// An owned copy of an optional string.
pub fn copy_opt(o: &Option<String>) -> (r: Option<String>)
    ensures
        r == *o,
{
    match o {
        Some(s) => Some(s.clone()),
        None => None,
    }
}

/// An owned copy of an optional string slice.
pub fn own_opt(o: Option<&str>) -> (r: Option<String>)
    ensures
        opt_view(r) == opt_str_view(o),
{
    match o {
        Some(s) => Some(String::from_str(s)),
        None => None,
    }
}

impl SelectorConfig {
    /// The config holds exactly these texts.
    pub open spec fn holds(
        &self,
        search_url: Seq<char>,
        result_container: Seq<char>,
        title_selector: Seq<char>,
        url_selector: Seq<char>,
        snippet_selector: Seq<char>,
        date_selector: Option<Seq<char>>,
        thumbnail_selector: Option<Seq<char>>,
        pagination_selector: Option<Seq<char>>,
        next_page_selector: Option<Seq<char>>,
    ) -> bool {
        &&& self.search_url@ == search_url
        &&& self.result_container@ == result_container
        &&& self.title_selector@ == title_selector
        &&& self.url_selector@ == url_selector
        &&& self.snippet_selector@ == snippet_selector
        &&& opt_view(self.date_selector) == date_selector
        &&& opt_view(self.thumbnail_selector) == thumbnail_selector
        &&& opt_view(self.pagination_selector) == pagination_selector
        &&& opt_view(self.next_page_selector) == next_page_selector
    }

    /// A config made of these texts.
    pub fn build(
        search_url: &str,
        result_container: &str,
        title_selector: &str,
        url_selector: &str,
        snippet_selector: &str,
        date_selector: Option<&str>,
        thumbnail_selector: Option<&str>,
        pagination_selector: Option<&str>,
        next_page_selector: Option<&str>,
    ) -> (r: SelectorConfig)
        ensures
            r.holds(
                search_url@,
                result_container@,
                title_selector@,
                url_selector@,
                snippet_selector@,
                opt_str_view(date_selector),
                opt_str_view(thumbnail_selector),
                opt_str_view(pagination_selector),
                opt_str_view(next_page_selector),
            ),
    {
        SelectorConfig {
            search_url: String::from_str(search_url),
            result_container: String::from_str(result_container),
            title_selector: String::from_str(title_selector),
            url_selector: String::from_str(url_selector),
            snippet_selector: String::from_str(snippet_selector),
            date_selector: own_opt(date_selector),
            thumbnail_selector: own_opt(thumbnail_selector),
            pagination_selector: own_opt(pagination_selector),
            next_page_selector: own_opt(next_page_selector),
        }
    }

    /// An equal copy of the config.
    pub fn duplicate(&self) -> (r: SelectorConfig)
        ensures
            r == *self,
    {
        SelectorConfig {
            search_url: self.search_url.clone(),
            result_container: self.result_container.clone(),
            title_selector: self.title_selector.clone(),
            url_selector: self.url_selector.clone(),
            snippet_selector: self.snippet_selector.clone(),
            date_selector: copy_opt(&self.date_selector),
            thumbnail_selector: copy_opt(&self.thumbnail_selector),
            pagination_selector: copy_opt(&self.pagination_selector),
            next_page_selector: copy_opt(&self.next_page_selector),
        }
    }
}

/// Settings of the result cache.
#[derive(Debug, Clone, PartialEq, Eq)]
pub struct CacheConfig {
    pub enabled: bool,
    pub ttl_seconds: u64,
    pub max_entries: usize,
}

impl Default for CacheConfig {
    /// Enabled, one hour to live, at most ten thousand entries.
    fn default() -> (r: Self)
        ensures
            r.enabled,
            r.ttl_seconds == 3600,
            r.max_entries == 10000,
    {
        CacheConfig { enabled: true, ttl_seconds: 3600, max_entries: 10_000 }
    }
}

} // verus!
