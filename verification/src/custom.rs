//! Search engines described by a plugin config: an address template and the CSS
//! selectors of the result page.
use vstd::prelude::*;
use crate::engines::{
    encoded_query, language_of, language_or_default, page_of, page_or_default, pairs_text,
    region_of, region_or_default, HtmlEngine, HttpMethod, PageReading, SearchEngine,
    SearchRequest,
};
use crate::error::{SearchError, SearchOptions};
use crate::codec::url_encode;
use crate::parser::{first_invalid_selector, parser_error_message, ParserError};
use crate::strings::{
    append_str, chars_of, decimal, decimal_string, replace_all, replace_str, str_equal,
    string_from_range,
};
use crate::types::{copy_opt, SelectorConfig};
use crate::user_agents::{desktop_agents, random_desktop};

verus! {

/// A plugin's description of a search engine.
#[derive(Debug, Clone, PartialEq, Eq)]
pub struct CustomEngineConfig {
    /// The engine's name, which identifies it.
    pub name: String,
    pub description: String,
    /// The address of the engine's site.
    pub base_url: String,
    /// The search address, with the placeholders `{query}`, `{lang}`, `{region}`,
    /// `{page}`, `{page_size}` and `{first}`.
    pub search_url_template: String,
    pub result_container: String,
    pub title_selector: String,
    pub url_selector: String,
    pub snippet_selector: String,
    pub date_selector: Option<String>,
    pub thumbnail_selector: Option<String>,
    pub next_page_selector: Option<String>,
    /// Extra headers sent with each request.
    pub headers: Vec<(String, String)>,
    /// The user agent to send; a random desktop one when not set.
    pub user_agent: Option<String>,
    pub timeout_ms: u64,
    pub url_attr: String,
    pub enabled: bool,
}

/// The request timeout of a plugin engine when none is given, in milliseconds.
pub fn default_timeout_ms() -> (r: u64)
    ensures
        r == 10000,
{
    10_000
}

/// The link attribute of a plugin engine when none is given.
pub fn default_url_attr() -> (r: String)
    ensures
        r@ == "href"@,
{
    String::from_str("href")
}

/// Whether a plugin engine is enabled when the config does not say.
pub fn default_true() -> (r: bool)
    ensures
        r,
{
    true
}

/// The selector config of a plugin: its template and selectors, without pagination
/// selector.
pub open spec fn plugin_selectors(c: CustomEngineConfig, s: SelectorConfig) -> bool {
    &&& s.search_url == c.search_url_template
    &&& s.result_container == c.result_container
    &&& s.title_selector == c.title_selector
    &&& s.url_selector == c.url_selector
    &&& s.snippet_selector == c.snippet_selector
    &&& s.date_selector == c.date_selector
    &&& s.thumbnail_selector == c.thumbnail_selector
    &&& s.pagination_selector is None
    &&& s.next_page_selector == c.next_page_selector
}

/// The search address of a plugin engine: the placeholders of the template replaced, in
/// this order, by the encoded query, the language (English by default), the region
/// (`us` by default), the page (from 0), the page size and the 1-based index of the
/// first result.
pub open spec fn custom_url(template: Seq<char>, query: Seq<char>, options: SearchOptions) -> Seq<char> {
    let page = page_of(options);
    let a = replace_all(template, "{query}"@, encoded_query(query));
    let b = replace_all(a, "{lang}"@, language_of(options));
    let c = replace_all(b, "{region}"@, region_of(options));
    let d = replace_all(c, "{page}"@, decimal(page as nat));
    let e = replace_all(d, "{page_size}"@, decimal(options.page_size as nat));
    replace_all(e, "{first}"@, decimal((page * options.page_size + 1) as nat))
}

/// Whether `s` has no `{`, so that no placeholder starts in it.
pub open spec fn brace_free(s: Seq<char>) -> bool {
    forall|j: int| 0 <= j < s.len() ==> s[j] != '{'
}

/// Replacing in `a + b` where no occurrence can start in `a` leaves `a` as it is.
proof fn lemma_replace_all_skip(a: Seq<char>, b: Seq<char>, from: Seq<char>, to: Seq<char>)
    requires
        from.len() > 0,
        forall|j: int| 0 <= j < a.len() ==> a[j] != from[0],
    ensures
        replace_all(a + b, from, to) == a + replace_all(b, from, to),
    decreases a.len(),
{
    if a.len() > 0 {
        let s = a + b;
        lemma_replace_all_skip(a.drop_first(), b, from, to);
        assert(s.drop_first() =~= a.drop_first() + b);
        if s.len() >= from.len() {
            assert(s.subrange(0, from.len() as int)[0] == a[0]);
            assert(s.subrange(0, from.len() as int) != from);
            assert(replace_all(s, from, to) =~= a + replace_all(b, from, to));
        } else {
            assert(replace_all(s, from, to) =~= a + replace_all(b, from, to));
        }
    }
}

/// Nothing is replaced in a text where `from` cannot start.
proof fn lemma_replace_all_none(s: Seq<char>, from: Seq<char>, to: Seq<char>)
    requires
        from.len() > 0,
        forall|j: int| 0 <= j < s.len() ==> s[j] != from[0],
    ensures
        replace_all(s, from, to) == s,
{
    lemma_replace_all_skip(s, seq![], from, to);
    assert(s + Seq::<char>::empty() =~= s);
}

/// A decimal notation has no `{`.
proof fn lemma_decimal_brace_free(n: nat)
    ensures
        brace_free(decimal(n)),
    decreases n,
{
    if n >= 10 {
        lemma_decimal_brace_free(n / 10);
    }
}

/// A placeholder `x` that differs from `from` at position `k` is not replaced, nor is
/// anything after it when that holds no `{`.
proof fn lemma_placeholder_kept(x: Seq<char>, post: Seq<char>, from: Seq<char>, to: Seq<char>, k: int)
    requires
        from.len() > 0,
        from[0] == '{',
        x.len() > 0,
        brace_free(x.drop_first()),
        brace_free(post),
        0 < k < x.len(),
        k < from.len(),
        x[k] != from[k],
    ensures
        replace_all(x + post, from, to) == x + post,
{
    let s = x + post;
    if s.len() >= from.len() {
        assert(s.subrange(0, from.len() as int)[k] == x[k]);
        assert(s.subrange(0, from.len() as int) != from);
        assert(s.drop_first() =~= x.drop_first() + post);
        lemma_replace_all_none(s.drop_first(), from, to);
        assert(seq![s[0]] + s.drop_first() =~= s);
    }
}

/// In a plugin template with one `{page}`, `{page_size}` or `{first}` placeholder and
/// no other `{`, the placeholder becomes the page counted from 0, the page size, or
/// the 1-based index of the page's first result (page times page size, plus one),
/// and the rest of the template stays as it is.
pub proof fn lemma_custom_url_paging(pre: Seq<char>, post: Seq<char>, query: Seq<char>, options: SearchOptions)
    requires
        brace_free(pre),
        brace_free(post),
    ensures
        custom_url(pre + "{page}"@ + post, query, options) == pre + decimal(page_of(options) as nat)
            + post,
        custom_url(pre + "{page_size}"@ + post, query, options) == pre + decimal(
            options.page_size as nat,
        ) + post,
        custom_url(pre + "{first}"@ + post, query, options) == pre + decimal(
            (page_of(options) * options.page_size + 1) as nat,
        ) + post,
{
    reveal_strlit("{query}");
    reveal_strlit("{lang}");
    reveal_strlit("{region}");
    reveal_strlit("{page}");
    reveal_strlit("{page_size}");
    reveal_strlit("{first}");
    let q = encoded_query(query);
    let l = language_of(options);
    let g = region_of(options);
    let dp = decimal(page_of(options) as nat);
    let ds = decimal(options.page_size as nat);
    let df = decimal((page_of(options) * options.page_size + 1) as nat);
    lemma_decimal_brace_free(page_of(options) as nat);
    lemma_decimal_brace_free(options.page_size as nat);
    lemma_decimal_brace_free((page_of(options) * options.page_size + 1) as nat);
    // `{page}`
    let x = "{page}"@;
    assert(brace_free(x.drop_first()));
    let t = pre + x + post;
    assert(t =~= pre + (x + post));
    lemma_replace_all_skip(pre, x + post, "{query}"@, q);
    lemma_placeholder_kept(x, post, "{query}"@, q, 1);
    lemma_replace_all_skip(pre, x + post, "{lang}"@, l);
    lemma_placeholder_kept(x, post, "{lang}"@, l, 1);
    lemma_replace_all_skip(pre, x + post, "{region}"@, g);
    lemma_placeholder_kept(x, post, "{region}"@, g, 1);
    lemma_replace_all_skip(pre, x + post, "{page}"@, dp);
    assert((x + post).subrange(0, 6) =~= x);
    assert((x + post).subrange(6, (x + post).len() as int) =~= post);
    lemma_replace_all_none(post, "{page}"@, dp);
    let r = pre + dp + post;
    assert(replace_all(t, "{page}"@, dp) =~= r);
    assert(brace_free(r));
    lemma_replace_all_none(r, "{page_size}"@, ds);
    lemma_replace_all_none(r, "{first}"@, df);
    // `{page_size}`
    let x = "{page_size}"@;
    assert(brace_free(x.drop_first()));
    let t = pre + x + post;
    assert(t =~= pre + (x + post));
    lemma_replace_all_skip(pre, x + post, "{query}"@, q);
    lemma_placeholder_kept(x, post, "{query}"@, q, 1);
    lemma_replace_all_skip(pre, x + post, "{lang}"@, l);
    lemma_placeholder_kept(x, post, "{lang}"@, l, 1);
    lemma_replace_all_skip(pre, x + post, "{region}"@, g);
    lemma_placeholder_kept(x, post, "{region}"@, g, 1);
    lemma_replace_all_skip(pre, x + post, "{page}"@, dp);
    lemma_placeholder_kept(x, post, "{page}"@, dp, 5);
    lemma_replace_all_skip(pre, x + post, "{page_size}"@, ds);
    assert((x + post).subrange(0, 11) =~= x);
    assert((x + post).subrange(11, (x + post).len() as int) =~= post);
    lemma_replace_all_none(post, "{page_size}"@, ds);
    let r = pre + ds + post;
    assert(replace_all(t, "{page_size}"@, ds) =~= r);
    assert(brace_free(r));
    lemma_replace_all_none(r, "{first}"@, df);
    // `{first}`
    let x = "{first}"@;
    assert(brace_free(x.drop_first()));
    let t = pre + x + post;
    assert(t =~= pre + (x + post));
    lemma_replace_all_skip(pre, x + post, "{query}"@, q);
    lemma_placeholder_kept(x, post, "{query}"@, q, 1);
    lemma_replace_all_skip(pre, x + post, "{lang}"@, l);
    lemma_placeholder_kept(x, post, "{lang}"@, l, 1);
    lemma_replace_all_skip(pre, x + post, "{region}"@, g);
    lemma_placeholder_kept(x, post, "{region}"@, g, 1);
    lemma_replace_all_skip(pre, x + post, "{page}"@, dp);
    lemma_placeholder_kept(x, post, "{page}"@, dp, 1);
    lemma_replace_all_skip(pre, x + post, "{page_size}"@, ds);
    lemma_placeholder_kept(x, post, "{page_size}"@, ds, 1);
    lemma_replace_all_skip(pre, x + post, "{first}"@, df);
    assert((x + post).subrange(0, 7) =~= x);
    assert((x + post).subrange(7, (x + post).len() as int) =~= post);
    lemma_replace_all_none(post, "{first}"@, df);
    assert(replace_all(t, "{first}"@, df) =~= pre + df + post);
}

/// The request of a plugin engine: a GET of the search address with the plugin's own
/// headers, then its user agent (a random desktop one when it sets none), `Accept` HTML
/// and `Accept-Language` English, and the plugin's timeout.
pub open spec fn custom_request(
    config: CustomEngineConfig,
    query: Seq<char>,
    options: SearchOptions,
    r: SearchRequest,
) -> bool {
    &&& r.method == HttpMethod::Get
    &&& r.url@ == custom_url(config.search_url_template@, query, options)
    &&& pairs_text(r.headers@).len() == config.headers@.len() + 3
    &&& pairs_text(r.headers@).subrange(0, config.headers@.len() as int) == pairs_text(
        config.headers@,
    )
    &&& pairs_text(r.headers@)[config.headers@.len() as int].0 == "User-Agent"@
    &&& match config.user_agent {
        Some(ua) => pairs_text(r.headers@)[config.headers@.len() as int].1 == ua@,
        None => desktop_agents().contains(
            pairs_text(r.headers@)[config.headers@.len() as int].1,
        ),
    }
    &&& pairs_text(r.headers@)[config.headers@.len() as int + 1] == (
        "Accept"@,
        "text/html,application/xhtml+xml"@,
    )
    &&& pairs_text(r.headers@)[config.headers@.len() as int + 2] == (
        "Accept-Language"@,
        "en-US,en;q=0.9"@,
    )
    &&& r.form@.len() == 0
    &&& r.timeout_ms == Some(config.timeout_ms)
}

/// The extension of a file name, as `Path::extension` documents it: the part after
/// the last `.`, where there is a `.` that is not the name's first char; `None`
/// otherwise.
pub open spec fn file_extension(name: Seq<char>) -> Option<Seq<char>> {
    if exists|k: int| 0 < k < name.len() && #[trigger] name[k] == '.' {
        let k = choose|k: int|
            0 < k < name.len() && #[trigger] name[k] == '.' && forall|j: int|
                k < j < name.len() ==> name[j] != '.';
        Some(name.subrange(k + 1, name.len() as int))
    } else {
        None
    }
}

/// The position of the last `.` of `name`, if any.
fn last_dot(name: &Vec<char>) -> (r: Option<usize>)
    ensures
        match r {
            Some(k) => k < name@.len() && name@[k as int] == '.' && forall|j: int|
                k < j < name@.len() ==> name@[j] != '.',
            None => forall|j: int| 0 <= j < name@.len() ==> name@[j] != '.',
        },
{
    let mut i = name.len();
    while i > 0
        invariant
            i <= name@.len(),
            forall|j: int| i <= j < name@.len() ==> name@[j] != '.',
        decreases i,
    {
        if name[i - 1] == '.' {
            return Some(i - 1);
        }
        i = i - 1;
    }
    None
}

/// Whether a file of a plugin directory is read as a plugin: its name's extension
/// is exactly `toml`.
pub fn is_plugin_file_name(name: &str) -> (r: bool)
    ensures
        r == (file_extension(name@) == Some("toml"@)),
{
    let v = chars_of(name);
    match last_dot(&v) {
        Some(k) => {
            if k == 0 {
                proof {
                    assert(!exists|k2: int| 0 < k2 < name@.len() && #[trigger] name@[k2] == '.');
                }
                return false;
            }
            proof {
                let c = choose|k2: int|
                    0 < k2 < name@.len() && #[trigger] name@[k2] == '.' && forall|j: int|
                        k2 < j < name@.len() ==> name@[j] != '.';
                assert(name@[k as int] == '.');
                if c < k {
                    assert(name@[k as int] != '.');
                }
                if k < c {
                    assert(name@[c] != '.');
                }
            }
            assert(k < v@.len() && v@.len() == v.len());
            let ext = string_from_range(v.as_slice(), k + 1, v.len());
            str_equal(ext.as_str(), "toml")
        },
        None => {
            proof {
                assert(!exists|k2: int| 0 < k2 < name@.len() && #[trigger] name@[k2] == '.');
            }
            false
        },
    }
}

/// The message of a plugin whose selectors do not parse.
pub open spec fn invalid_plugin_message(name: Seq<char>, e: ParserError) -> Seq<char> {
    "Invalid CSS selector for engine '"@ + name + "': "@ + parser_error_message(e)
}

/// A search engine loaded from a plugin config.
pub struct CustomSearchEngine {
    config: CustomEngineConfig,
    engine: HtmlEngine,
}

impl CustomSearchEngine {
    pub closed spec fn config(&self) -> CustomEngineConfig {
        self.config
    }

    pub closed spec fn html(&self) -> HtmlEngine {
        self.engine
    }

    /// The reading engine carries the plugin's name and site, reports blocking, keeps
    /// dates and follows next-page links.
    #[verifier::type_invariant]
    closed spec fn consistent(&self) -> bool {
        &&& self.engine.spec_name() == self.config.name@
        &&& self.engine.spec_base_url() == self.config.base_url@
        &&& self.engine.spec_reports_blocking()
        &&& self.engine.spec_reading() == (PageReading { keeps_dates: true, youtube_links: false })
        &&& self.engine.spec_follows_next_page()
        &&& self.engine.spec_url_attr() == self.config.url_attr@
    }

    /// The engine a plugin config describes. It reports blocking, keeps dates and
    /// thumbnails and follows next-page links. Fails with a config error naming the
    /// engine when one of its selectors does not parse.
    pub fn new(config: CustomEngineConfig) -> (r: Result<Self, SearchError>)
        ensures
            match r {
                Ok(engine) => {
                    &&& engine.config() == config
                    &&& engine.html().spec_name() == config.name@
                    &&& engine.html().spec_base_url() == config.base_url@
                    &&& engine.html().spec_reports_blocking()
                    &&& engine.html().spec_reading() == (PageReading {
                        keeps_dates: true,
                        youtube_links: false,
                    })
                    &&& engine.html().spec_follows_next_page()
                    &&& engine.html().spec_url_attr() == config.url_attr@
                    &&& engine.html().spec_selectors() matches Some(s) && plugin_selectors(config, s)
                },
                Err(e) => exists|s: SelectorConfig, pe: ParserError|
                    #![trigger plugin_selectors(config, s), invalid_plugin_message(config.name@, pe)]
                    {
                        &&& plugin_selectors(config, s)
                        &&& first_invalid_selector(s) is Some
                        &&& e matches SearchError::Config(m) && m@ == invalid_plugin_message(
                            config.name@,
                            pe,
                        )
                    },
            },
            r is Ok <==> forall|s: SelectorConfig|
                #[trigger] plugin_selectors(config, s) ==> first_invalid_selector(s) is None,
    {
        let selectors = SelectorConfig {
            search_url: config.search_url_template.clone(),
            result_container: config.result_container.clone(),
            title_selector: config.title_selector.clone(),
            url_selector: config.url_selector.clone(),
            snippet_selector: config.snippet_selector.clone(),
            date_selector: copy_opt(&config.date_selector),
            thumbnail_selector: copy_opt(&config.thumbnail_selector),
            pagination_selector: None,
            next_page_selector: copy_opt(&config.next_page_selector),
        };
        assert(plugin_selectors(config, selectors));
        proof {
            assert forall|s: SelectorConfig| #[trigger] plugin_selectors(config, s) implies s
                == selectors by {}
        }
        match HtmlEngine::try_new(
            config.name.as_str(),
            config.base_url.as_str(),
            true,
            PageReading { keeps_dates: true, youtube_links: false },
            true,
            config.url_attr.as_str(),
            &selectors,
        ) {
            Ok(engine) => Ok(CustomSearchEngine { config, engine }),
            Err(e) => {
                let mut m = String::from_str("Invalid CSS selector for engine '");
                append_str(&mut m, config.name.as_str());
                append_str(&mut m, "': ");
                let em = e.message();
                append_str(&mut m, em.as_str());
                assert(invalid_plugin_message(config.name@, e) == m@);
                Err(SearchError::Config(m))
            },
        }
    }

    /// The engine that reads the result pages.
    pub fn html_engine(&self) -> (r: &HtmlEngine)
        ensures
            *r == self.html(),
            r.spec_name() == self.config().name@,
            r.spec_base_url() == self.config().base_url@,
            r.spec_reports_blocking(),
            r.spec_reading() == (PageReading { keeps_dates: true, youtube_links: false }),
            r.spec_follows_next_page(),
            r.spec_url_attr() == self.config().url_attr@,
    {
        proof {
            use_type_invariant(self);
        }
        &self.engine
    }

    /// The plugin config the engine was made from.
    pub fn engine_config(&self) -> (r: &CustomEngineConfig)
        ensures
            *r == self.config(),
    {
        &self.config
    }

    /// The search address for `query` (see `custom_url`).
    pub fn build_url(&self, query: &str, options: &SearchOptions) -> (r: String)
        requires
            page_of(*options) * options.page_size + 1 <= usize::MAX,
        ensures
            r@ == custom_url(self.config().search_url_template@, query@, *options),
    {
        proof {
            reveal_strlit("{query}");
            reveal_strlit("{lang}");
            reveal_strlit("{region}");
            reveal_strlit("{page}");
            reveal_strlit("{page_size}");
            reveal_strlit("{first}");
        }
        let lang = language_or_default(options);
        let region = region_or_default(options);
        let page = page_or_default(options);
        let page_size = options.page_size;
        let q = url_encode(query);
        let a = replace_str(self.config.search_url_template.as_str(), "{query}", q.as_str());
        let b = replace_str(a.as_str(), "{lang}", lang);
        let c = replace_str(b.as_str(), "{region}", region);
        let p = decimal_string(page as u64);
        let d = replace_str(c.as_str(), "{page}", p.as_str());
        let ps = decimal_string(page_size as u64);
        let e = replace_str(d.as_str(), "{page_size}", ps.as_str());
        let f = decimal_string((page * page_size + 1) as u64);
        replace_str(e.as_str(), "{first}", f.as_str())
    }

    /// The request for a search: a GET of the search address with the plugin's own
    /// headers, then its user agent (a random desktop one when it sets none), `Accept`
    /// HTML and `Accept-Language` English, and the plugin's timeout.
    pub fn request(&self, query: &str, options: &SearchOptions) -> (r: SearchRequest)
        requires
            page_of(*options) * options.page_size + 1 <= usize::MAX,
        ensures
            custom_request(self.config(), query@, *options, r),
    {
        let url = self.build_url(query, options);
        let mut headers: Vec<(String, String)> = Vec::new();
        let n = self.config.headers.len();
        let mut i: usize = 0;
        while i < n
            invariant
                n == self.config.headers@.len(),
                i <= n,
                headers@.len() == i,
                forall|j: int|
                    0 <= j < i ==> (#[trigger] headers@[j]).0@ == self.config.headers@[j].0@
                        && headers@[j].1@ == self.config.headers@[j].1@,
            decreases n - i,
        {
            let k = self.config.headers[i].0.clone();
            let v = self.config.headers[i].1.clone();
            headers.push((k, v));
            i = i + 1;
        }
        let ua = match &self.config.user_agent {
            Some(u) => u.clone(),
            None => random_desktop(),
        };
        headers.push((String::from_str("User-Agent"), ua));
        headers.push((String::from_str("Accept"), String::from_str("text/html,application/xhtml+xml")));
        headers.push((String::from_str("Accept-Language"), String::from_str("en-US,en;q=0.9")));
        assert(pairs_text(headers@).subrange(0, n as int) =~= pairs_text(self.config.headers@)) by {
            assert forall|j: int| 0 <= j < n implies #[trigger] pairs_text(headers@)[j] == pairs_text(
                self.config.headers@,
            )[j] by {
                assert(headers@[j].0@ == self.config.headers@[j].0@);
            }
        }
        SearchRequest {
            method: HttpMethod::Get,
            url,
            headers,
            form: Vec::new(),
            timeout_ms: Some(self.config.timeout_ms),
        }
    }
}

impl SearchEngine for CustomSearchEngine {
    open spec fn spec_name(&self) -> Seq<char> {
        self.config().name@
    }

    open spec fn spec_base_url(&self) -> Seq<char> {
        self.config().base_url@
    }

    open spec fn spec_available(&self) -> bool {
        self.config().enabled
    }

    fn name(&self) -> (r: &str) {
        self.config.name.as_str()
    }

    fn base_url(&self) -> (r: &str) {
        self.config.base_url.as_str()
    }

    fn is_available(&self) -> (r: bool) {
        self.config.enabled
    }
}

} // verus!
