//! The engines the library knows, under one type, and how they are picked by name.
use vstd::prelude::*;
use crate::codec::{ascii_lower, is_ascii_text, is_lower_ascii, lower_cased, to_lower};
use crate::custom::{custom_request, CustomSearchEngine};
use crate::engines::{
    bing_url, brave_url, browser_request, is_bing_engine, is_brave_engine,
    is_duckduckgo_engine, is_google_engine, is_yahoo_engine, is_youtube_engine, ddg_request, google_url, page_of, status_verdict,
    yahoo_url, youtube_url, BingSearch, BraveSearch, DuckDuckGoSearch, GoogleSearch, HtmlEngine,
    SearchEngine, SearchRequest, YahooSearch, YouTubeSearch,
};
use crate::error::{SearchError, SearchOptions};
use crate::searxng::{searxng_request, SearXNGSearch};
use crate::state::builtin_engines;
use crate::strings::str_equal;

verus! {

/// A search engine of any of the kinds the library has.
pub enum WebEngine {
    Google(GoogleSearch),
    DuckDuckGo(DuckDuckGoSearch),
    Bing(BingSearch),
    Brave(BraveSearch),
    YouTube(YouTubeSearch),
    Yahoo(YahooSearch),
    SearXNG(SearXNGSearch),
    Custom(CustomSearchEngine),
}

/// The built-in engine a lower-cased name stands for, by its own name: `ddg` is
/// DuckDuckGo and `yt` is YouTube.
pub open spec fn builtin_named(l: Seq<char>) -> Option<Seq<char>> {
    if l == "google"@ {
        Some("google"@)
    } else if l == "duckduckgo"@ || l == "ddg"@ {
        Some("duckduckgo"@)
    } else if l == "bing"@ {
        Some("bing"@)
    } else if l == "brave"@ {
        Some("brave"@)
    } else if l == "youtube"@ || l == "yt"@ {
        Some("youtube"@)
    } else if l == "yahoo"@ {
        Some("yahoo"@)
    } else {
        None
    }
}

/// The name of the built-in kind of an engine; `None` for SearXNG and plugin engines.
pub open spec fn builtin_kind(e: WebEngine) -> Option<Seq<char>> {
    match e {
        WebEngine::Google(_) => Some("google"@),
        WebEngine::DuckDuckGo(_) => Some("duckduckgo"@),
        WebEngine::Bing(_) => Some("bing"@),
        WebEngine::Brave(_) => Some("brave"@),
        WebEngine::YouTube(_) => Some("youtube"@),
        WebEngine::Yahoo(_) => Some("yahoo"@),
        WebEngine::SearXNG(_) => None,
        WebEngine::Custom(_) => None,
    }
}

/// Whether `e` is a built-in engine as its kind's constructor builds it.
pub open spec fn is_builtin_engine(e: WebEngine) -> bool {
    match e {
        WebEngine::Google(g) => is_google_engine(g.html()),
        WebEngine::DuckDuckGo(g) => is_duckduckgo_engine(g.html()),
        WebEngine::Bing(g) => is_bing_engine(g.html()),
        WebEngine::Brave(g) => is_brave_engine(g.html()),
        WebEngine::YouTube(g) => is_youtube_engine(g.html()),
        WebEngine::Yahoo(g) => is_yahoo_engine(g.html()),
        WebEngine::SearXNG(_) => false,
        WebEngine::Custom(_) => false,
    }
}

/// The request each kind of engine makes for `query`.
pub open spec fn request_for(e: WebEngine, query: Seq<char>, options: SearchOptions, r: SearchRequest) -> bool {
    match e {
        WebEngine::Google(_) => browser_request(r, google_url(query, options)),
        WebEngine::DuckDuckGo(_) => ddg_request(r, query, options),
        WebEngine::Bing(_) => browser_request(r, bing_url(query, options)),
        WebEngine::Brave(_) => browser_request(r, brave_url(query)),
        WebEngine::YouTube(_) => browser_request(r, youtube_url(query)),
        WebEngine::Yahoo(_) => browser_request(r, yahoo_url(query)),
        WebEngine::SearXNG(s) => searxng_request(r, s.instance(), query, options),
        WebEngine::Custom(c) => custom_request(c.config(), query, options, r),
    }
}

/// The engine that reads an engine's HTML pages; SearXNG answers in JSON and has none.
pub open spec fn html_of(e: WebEngine) -> Option<HtmlEngine> {
    match e {
        WebEngine::Google(g) => Some(g.html()),
        WebEngine::DuckDuckGo(g) => Some(g.html()),
        WebEngine::Bing(g) => Some(g.html()),
        WebEngine::Brave(g) => Some(g.html()),
        WebEngine::YouTube(g) => Some(g.html()),
        WebEngine::Yahoo(g) => Some(g.html()),
        WebEngine::SearXNG(_) => None,
        WebEngine::Custom(c) => Some(c.html()),
    }
}

/// Whether the engine answers 403 and 503 as blocking.
pub open spec fn reports_blocking_of(e: WebEngine) -> bool {
    match html_of(e) {
        Some(h) => h.spec_reports_blocking(),
        None => true,
    }
}

impl WebEngine {
    /// The request for a search of `query`, as the engine's kind makes it.
    pub fn request(&self, query: &str, options: &SearchOptions) -> (r: SearchRequest)
        requires
            page_of(*options) * options.page_size + 1 <= usize::MAX,
            page_of(*options) + 1 <= usize::MAX,
        ensures
            request_for(*self, query@, *options, r),
    {
        match self {
            WebEngine::Google(g) => g.request(query, options),
            WebEngine::DuckDuckGo(g) => g.request(query, options),
            WebEngine::Bing(g) => g.request(query, options),
            WebEngine::Brave(g) => g.request(query, options),
            WebEngine::YouTube(g) => g.request(query, options),
            WebEngine::Yahoo(g) => g.request(query, options),
            WebEngine::SearXNG(s) => s.request(query, options),
            WebEngine::Custom(c) => c.request(query, options),
        }
    }

    /// The engine that reads the result pages, for the engines that read HTML.
    pub fn html_engine(&self) -> (r: Option<&HtmlEngine>)
        ensures
            match html_of(*self) {
                Some(h) => r matches Some(x) && *x == h && x.spec_name() == self.spec_name(),
                None => r is None,
            },
    {
        match self {
            WebEngine::Google(g) => Some(g.html_engine()),
            WebEngine::DuckDuckGo(g) => Some(g.html_engine()),
            WebEngine::Bing(g) => Some(g.html_engine()),
            WebEngine::Brave(g) => Some(g.html_engine()),
            WebEngine::YouTube(g) => Some(g.html_engine()),
            WebEngine::Yahoo(g) => Some(g.html_engine()),
            WebEngine::SearXNG(_) => None,
            WebEngine::Custom(c) => Some(c.html_engine()),
        }
    }

    /// Reads the status of a reply to the engine.
    pub fn check_status(&self, code: u16) -> (r: Result<(), SearchError>)
        requires
            100 <= code <= 999,
        ensures
            status_verdict(r, self.spec_name(), code, reports_blocking_of(*self)),
    {
        match self {
            WebEngine::SearXNG(s) => s.check_status(code),
            _ => {
                let h = self.html_engine();
                match h {
                    Some(x) => x.check_status(code),
                    None => {
                        assert(false);
                        Ok(())
                    },
                }
            },
        }
    }
}

impl SearchEngine for WebEngine {
    open spec fn spec_name(&self) -> Seq<char> {
        match self {
            WebEngine::Google(g) => g.spec_name(),
            WebEngine::DuckDuckGo(g) => g.spec_name(),
            WebEngine::Bing(g) => g.spec_name(),
            WebEngine::Brave(g) => g.spec_name(),
            WebEngine::YouTube(g) => g.spec_name(),
            WebEngine::Yahoo(g) => g.spec_name(),
            WebEngine::SearXNG(s) => s.spec_name(),
            WebEngine::Custom(c) => c.spec_name(),
        }
    }

    open spec fn spec_base_url(&self) -> Seq<char> {
        match self {
            WebEngine::Google(g) => g.spec_base_url(),
            WebEngine::DuckDuckGo(g) => g.spec_base_url(),
            WebEngine::Bing(g) => g.spec_base_url(),
            WebEngine::Brave(g) => g.spec_base_url(),
            WebEngine::YouTube(g) => g.spec_base_url(),
            WebEngine::Yahoo(g) => g.spec_base_url(),
            WebEngine::SearXNG(s) => s.spec_base_url(),
            WebEngine::Custom(c) => c.spec_base_url(),
        }
    }

    open spec fn spec_available(&self) -> bool {
        match self {
            WebEngine::Google(g) => g.spec_available(),
            WebEngine::DuckDuckGo(g) => g.spec_available(),
            WebEngine::Bing(g) => g.spec_available(),
            WebEngine::Brave(g) => g.spec_available(),
            WebEngine::YouTube(g) => g.spec_available(),
            WebEngine::Yahoo(g) => g.spec_available(),
            WebEngine::SearXNG(s) => s.spec_available(),
            WebEngine::Custom(c) => c.spec_available(),
        }
    }

    fn name(&self) -> (r: &str) {
        match self {
            WebEngine::Google(g) => g.name(),
            WebEngine::DuckDuckGo(g) => g.name(),
            WebEngine::Bing(g) => g.name(),
            WebEngine::Brave(g) => g.name(),
            WebEngine::YouTube(g) => g.name(),
            WebEngine::Yahoo(g) => g.name(),
            WebEngine::SearXNG(s) => s.name(),
            WebEngine::Custom(c) => c.name(),
        }
    }

    fn base_url(&self) -> (r: &str) {
        match self {
            WebEngine::Google(g) => g.base_url(),
            WebEngine::DuckDuckGo(g) => g.base_url(),
            WebEngine::Bing(g) => g.base_url(),
            WebEngine::Brave(g) => g.base_url(),
            WebEngine::YouTube(g) => g.base_url(),
            WebEngine::Yahoo(g) => g.base_url(),
            WebEngine::SearXNG(s) => s.base_url(),
            WebEngine::Custom(c) => c.base_url(),
        }
    }

    fn is_available(&self) -> (r: bool) {
        match self {
            WebEngine::Google(g) => g.is_available(),
            WebEngine::DuckDuckGo(g) => g.is_available(),
            WebEngine::Bing(g) => g.is_available(),
            WebEngine::Brave(g) => g.is_available(),
            WebEngine::YouTube(g) => g.is_available(),
            WebEngine::Yahoo(g) => g.is_available(),
            WebEngine::SearXNG(s) => s.is_available(),
            WebEngine::Custom(c) => c.is_available(),
        }
    }
}

/// The built-in engine a name stands for, compared without regard to case (see
/// `builtin_named`); `None` for any other name.
pub fn create_engine(name: &str) -> (r: Option<WebEngine>)
    ensures
        match builtin_named(lower_cased(name@)) {
            Some(n) => r matches Some(e) && builtin_kind(e) == Some(n) && e.spec_name() == n,
            None => r is None,
        },
        is_lower_ascii(name@) ==> match builtin_named(name@) {
            Some(n) => r matches Some(e) && builtin_kind(e) == Some(n) && e.spec_name() == n,
            None => r is None,
        },
        is_ascii_text(name@) ==> match builtin_named(ascii_lower(name@)) {
            Some(n) => r matches Some(e) && builtin_kind(e) == Some(n) && e.spec_name() == n,
            None => r is None,
        },
        r matches Some(e) ==> is_builtin_engine(e),
{
    let l = to_lower(name);
    let ls = l.as_str();
    if str_equal(ls, "google") {
        Some(WebEngine::Google(GoogleSearch::new()))
    } else if str_equal(ls, "duckduckgo") || str_equal(ls, "ddg") {
        Some(WebEngine::DuckDuckGo(DuckDuckGoSearch::new()))
    } else if str_equal(ls, "bing") {
        Some(WebEngine::Bing(BingSearch::new()))
    } else if str_equal(ls, "brave") {
        Some(WebEngine::Brave(BraveSearch::new()))
    } else if str_equal(ls, "youtube") || str_equal(ls, "yt") {
        Some(WebEngine::YouTube(YouTubeSearch::new()))
    } else if str_equal(ls, "yahoo") {
        Some(WebEngine::Yahoo(YahooSearch::new()))
    } else {
        None
    }
}

/// Each built-in engine a server starts with is named in lower-case ASCII and creates
/// an engine of its own kind and name.
pub proof fn lemma_builtin_names_create_engines()
    ensures
        forall|i: int|
            0 <= i < builtin_engines().len() ==> is_lower_ascii(#[trigger] builtin_engines()[i])
                && builtin_named(builtin_engines()[i]) == Some(builtin_engines()[i]),
{
    reveal_strlit("google");
    reveal_strlit("duckduckgo");
    reveal_strlit("bing");
    reveal_strlit("brave");
    reveal_strlit("youtube");
    reveal_strlit("yahoo");
    reveal_strlit("ddg");
    reveal_strlit("yt");
    assert forall|i: int|
        0 <= i < builtin_engines().len() implies is_lower_ascii(#[trigger] builtin_engines()[i])
            && builtin_named(builtin_engines()[i]) == Some(builtin_engines()[i]) by {
        if i == 0 {
            assert(builtin_engines()[i] == "google"@);
        } else if i == 1 {
            assert(builtin_engines()[i] == "duckduckgo"@);
            assert("duckduckgo"@.len() != "google"@.len());
        } else if i == 2 {
            assert(builtin_engines()[i] == "bing"@);
            assert("bing"@.len() != "google"@.len());
            assert("bing"@.len() != "duckduckgo"@.len());
            assert("bing"@.len() != "ddg"@.len());
        } else if i == 3 {
            assert(builtin_engines()[i] == "brave"@);
            assert("brave"@.len() != "google"@.len());
            assert("brave"@.len() != "duckduckgo"@.len());
            assert("brave"@.len() != "ddg"@.len());
            assert("brave"@.len() != "bing"@.len());
        } else if i == 4 {
            assert(builtin_engines()[i] == "youtube"@);
            assert("youtube"@.len() != "google"@.len());
            assert("youtube"@.len() != "duckduckgo"@.len());
            assert("youtube"@.len() != "ddg"@.len());
            assert("youtube"@.len() != "bing"@.len());
            assert("youtube"@.len() != "brave"@.len());
        } else {
            assert(builtin_engines()[i] == "yahoo"@);
            assert("yahoo"@.len() != "google"@.len());
            assert("yahoo"@.len() != "duckduckgo"@.len());
            assert("yahoo"@.len() != "ddg"@.len());
            assert("yahoo"@.len() != "bing"@.len());
            assert("yahoo"@[0] != "brave"@[0]);
            assert("yahoo"@.len() != "youtube"@.len());
            assert("yahoo"@.len() != "yt"@.len());
        }
    }
}

} // verus!
