//! The HTML search engines: what request each sends for a query, how each reads the
//! HTTP status of the reply, and how each turns the result page into a response.
//! Sending the request and reading the reply are left to the caller.
use vstd::prelude::*;
use crate::codec::{percent_encoded, upper_cased, to_upper, url_encode};
use crate::error::{SearchError, SearchOptions, SearchResponse, SearchResult};
use crate::parser::{
    assembled, first_invalid_selector, lemma_page_outcome_text, page_next_link, page_outcome,
    page_parse, page_raws, parsed_texts, parser_error_message, HtmlSearchParser, ParsedResult,
    ParsedText, ParserError, RawText, is_invalid_selector_error,
};
use crate::selectors::{
    bing_selectors, duckduckgo_selectors, google_selectors, is_bing_selectors,
    is_duckduckgo_selectors, is_google_selectors, is_youtube_selectors, youtube_selectors,
};
use crate::strings::{append_str, decimal, decimal_string, starts_with_seq, str_starts_with};
use crate::types::{opt_view, SelectorConfig};
use crate::user_agents::{desktop_agents, random_desktop};
use vstd::utf8::encode_utf8;

verus! {

/// The HTTP method of a search request.
#[derive(Debug, Clone, Copy, PartialEq, Eq)]
pub enum HttpMethod {
    Get,
    Post,
}

/// An HTTP request to send for a search: method, address, headers in order, form
/// fields (for a POST) in order, and a timeout where the engine sets one.
#[derive(Debug, Clone, PartialEq, Eq)]
pub struct SearchRequest {
    pub method: HttpMethod,
    pub url: String,
    pub headers: Vec<(String, String)>,
    pub form: Vec<(String, String)>,
    pub timeout_ms: Option<u64>,
}

/// The texts of a list of name/value pairs.
pub open spec fn pairs_text(v: Seq<(String, String)>) -> Seq<(Seq<char>, Seq<char>)> {
    v.map_values(|p: (String, String)| (p.0@, p.1@))
}

/// A name/value pair made of two texts.
pub fn pair(name: &str, value: &str) -> (r: (String, String))
    ensures
        r.0@ == name@,
        r.1@ == value@,
{
    (String::from_str(name), String::from_str(value))
}

/// The headers every HTML engine sends: a desktop user agent, then what it accepts.
pub open spec fn browser_headers(headers: Seq<(Seq<char>, Seq<char>)>) -> bool {
    &&& headers.len() == 3
    &&& headers[0].0 == "User-Agent"@ && desktop_agents().contains(headers[0].1)
    &&& headers[1] == ("Accept"@, "text/html,application/xhtml+xml"@)
    &&& headers[2] == ("Accept-Language"@, "en-US,en;q=0.9"@)
}

/// A GET of `url` with the browser headers, no form and no timeout of its own.
pub open spec fn browser_request(r: SearchRequest, url: Seq<char>) -> bool {
    &&& r.method == HttpMethod::Get
    &&& r.url@ == url
    &&& browser_headers(pairs_text(r.headers@))
    &&& r.form@.len() == 0
    &&& r.timeout_ms is None
}

/// A desktop user agent, then `Accept` HTML and `Accept-Language` English.
pub fn browser_header_list() -> (r: Vec<(String, String)>)
    ensures
        browser_headers(pairs_text(r@)),
{
    let mut h: Vec<(String, String)> = Vec::new();
    let ua = random_desktop();
    h.push((String::from_str("User-Agent"), ua));
    h.push(pair("Accept", "text/html,application/xhtml+xml"));
    h.push(pair("Accept-Language", "en-US,en;q=0.9"));
    assert(pairs_text(h@)[0].1 == ua@);
    h
}

/// The reason phrase that `http::StatusCode::canonical_reason` gives for `code`.
pub uninterp spec fn canonical_reason_of(code: u16) -> Option<Seq<char>>;

/// `reqwest::StatusCode::from_u16(code)` then `canonical_reason`; the result is named
/// by `canonical_reason_of`.
#[verifier::external_body]
fn status_reason(code: u16) -> (r: Option<String>)
    requires
        100 <= code <= 999,
    ensures
        opt_view(r) == canonical_reason_of(code),
{
    match reqwest::StatusCode::from_u16(code) {
        Ok(s) => s.canonical_reason().map(String::from),
        Err(_) => None,
    }
}

/// How a status code is written: the number, a space and its reason phrase.
pub open spec fn status_text(code: u16) -> Seq<char> {
    decimal(code as nat) + " "@ + match canonical_reason_of(code) {
        Some(r) => r,
        None => "<unknown status code>"@,
    }
}

/// The status code written with its reason phrase, as `StatusCode` displays it.
pub fn status_display(code: u16) -> (r: String)
    requires
        100 <= code <= 999,
    ensures
        r@ == status_text(code),
{
    let mut s = decimal_string(code as u64);
    append_str(&mut s, " ");
    match status_reason(code) {
        Some(reason) => append_str(&mut s, reason.as_str()),
        None => append_str(&mut s, "<unknown status code>"),
    }
    s
}

pub open spec fn is_success_status(code: u16) -> bool {
    200 <= code <= 299
}

/// How an engine named `engine` answers a reply with status `code`: 429 is rate
/// limiting; 403 and 503 are blocking where the engine reports blocking; any other
/// status outside 200..=299 makes the engine unavailable, with the status as reason.
pub open spec fn status_verdict<T>(
    r: Result<T, SearchError>,
    engine: Seq<char>,
    code: u16,
    reports_blocking: bool,
) -> bool {
    if code == 429 {
        r matches Err(SearchError::RateLimited { engine: e }) && e@ == engine
    } else if reports_blocking && (code == 403 || code == 503) {
        r matches Err(SearchError::Blocked { engine: e }) && e@ == engine
    } else if !is_success_status(code) {
        r matches Err(SearchError::EngineUnavailable { engine: e, reason }) && e@ == engine
            && reason@ == "HTTP "@ + status_text(code)
    } else {
        r is Ok
    }
}

/// Reads the status of a reply to a search on `engine`.
pub fn check_status(engine: &str, code: u16, reports_blocking: bool) -> (r: Result<(), SearchError>)
    requires
        100 <= code <= 999,
    ensures
        status_verdict(r, engine@, code, reports_blocking),
{
    if code == 429 {
        return Err(SearchError::RateLimited { engine: String::from_str(engine) });
    }
    if reports_blocking && (code == 403 || code == 503) {
        return Err(SearchError::Blocked { engine: String::from_str(engine) });
    }
    if !(200 <= code && code <= 299) {
        let mut reason = String::from_str("HTTP ");
        let st = status_display(code);
        append_str(&mut reason, st.as_str());
        return Err(SearchError::EngineUnavailable { engine: String::from_str(engine), reason });
    }
    Ok(())
}

/// The texts of a result: title, url, snippet, engine, date, thumbnail, position.
pub type ResultText = (
    Seq<char>,
    Seq<char>,
    Seq<char>,
    Seq<char>,
    Option<Seq<char>>,
    Option<Seq<char>>,
    Option<usize>,
);

pub open spec fn result_text(r: SearchResult) -> ResultText {
    (
        r.title@,
        r.url@,
        r.snippet@,
        r.engine@,
        opt_view(r.published_date),
        opt_view(r.thumbnail),
        r.position,
    )
}

/// Where YouTube gives a link without scheme and host, the host is put in front.
pub open spec fn youtube_link(url: Seq<char>) -> Seq<char> {
    if starts_with_seq(url, "http"@) {
        url
    } else {
        "https://www.youtube.com"@ + url
    }
}

/// How the engine reads the results of its page.
#[derive(Debug, Clone, Copy, PartialEq, Eq)]
pub struct PageReading {
    /// Dates and thumbnails are passed on (otherwise left out).
    pub keeps_dates: bool,
    /// Links without scheme are completed with the YouTube host.
    pub youtube_links: bool,
}

/// The `i`-th result (0-based) of a page, as the engine reports it.
pub open spec fn page_result(p: ParsedText, engine: Seq<char>, i: int, reading: PageReading) -> ResultText {
    (
        p.0,
        if reading.youtube_links {
            youtube_link(p.1)
        } else {
            p.1
        },
        p.2,
        engine,
        if reading.keeps_dates {
            p.3
        } else {
            None
        },
        if reading.keeps_dates {
            p.4
        } else {
            None
        },
        Some((i + 1) as usize),
    )
}

/// The texts of a page reading: the parsed results, or the parser's error message.
pub open spec fn parse_outcome_text(pr: Result<Vec<ParsedResult>, ParserError>) -> Result<
    Seq<ParsedText>,
    Seq<char>,
> {
    match pr {
        Ok(v) => Ok(parsed_texts(v@)),
        Err(e) => Err(parser_error_message(e)),
    }
}

/// The response of `engine` to `query` from the reading of its page: the results
/// numbered from 1, their count as total, the time taken and the next-page link; or a
/// parse error with the parser's message.
pub open spec fn page_response(
    r: Result<SearchResponse, SearchError>,
    query: Seq<char>,
    engine: Seq<char>,
    parsed: Result<Seq<ParsedText>, Seq<char>>,
    reading: PageReading,
    elapsed_ms: u64,
    next_page: Option<Seq<char>>,
) -> bool {
    match parsed {
        Err(msg) => r matches Err(SearchError::Parse(m)) && m@ == msg,
        Ok(ps) => r matches Ok(resp) && {
            &&& resp.query@ == query
            &&& resp.engine@ == engine
            &&& resp.total_results == Some(ps.len() as usize)
            &&& resp.search_time_ms == elapsed_ms
            &&& opt_view(resp.next_page_token) == next_page
            &&& resp.results@.len() == ps.len()
            &&& forall|i: int|
                0 <= i < ps.len() ==> result_text(#[trigger] resp.results@[i]) == page_result(
                    ps[i],
                    engine,
                    i,
                    reading,
                )
        },
    }
}

/// Builds the response of `engine` from the reading of its page.
pub fn respond_from_page(
    query: &str,
    engine: &str,
    parsed: Result<Vec<ParsedResult>, ParserError>,
    reading: PageReading,
    elapsed_ms: u64,
    next_page: Option<String>,
) -> (r: Result<SearchResponse, SearchError>)
    ensures
        page_response(
            r,
            query@,
            engine@,
            parse_outcome_text(parsed),
            reading,
            elapsed_ms,
            opt_view(next_page),
        ),
{
    let parsed = match parsed {
        Ok(v) => v,
        Err(e) => {
            return Err(SearchError::Parse(e.message()));
        },
    };
    let ghost ps = parsed_texts(parsed@);
    let mut results: Vec<SearchResult> = Vec::new();
    let n = parsed.len();
    for i in 0..n
        invariant
            n == parsed@.len(),
            ps == parsed_texts(parsed@),
            results@.len() == i,
            forall|j: int|
                0 <= j < i ==> result_text(#[trigger] results@[j]) == page_result(
                    ps[j],
                    engine@,
                    j,
                    reading,
                ),
    {
        let p = &parsed[i];
        let url = if reading.youtube_links && !str_starts_with(p.url.as_str(), "http") {
            let mut u = String::from_str("https://www.youtube.com");
            append_str(&mut u, p.url.as_str());
            u
        } else {
            p.url.clone()
        };
        let (published_date, thumbnail) = if reading.keeps_dates {
            (p.published_date.clone(), p.thumbnail.clone())
        } else {
            (None, None)
        };
        let r = SearchResult {
            title: p.title.clone(),
            url,
            snippet: p.snippet.clone(),
            engine: String::from_str(engine),
            published_date,
            thumbnail,
            position: Some(i + 1),
        };
        assert(result_text(r) == page_result(ps[i as int], engine@, i as int, reading));
        results.push(r);
    }
    let total = results.len();
    Ok(
        SearchResponse {
            query: String::from_str(query),
            results,
            total_results: Some(total),
            engine: String::from_str(engine),
            search_time_ms: elapsed_ms,
            next_page_token: next_page,
        },
    )
}

/// What a page reading makes of each parsed result `(title, link, snippet, date,
/// thumbnail)`, in order: its title and snippet as they are; its link as it is, or
/// completed with the YouTube host where the reading asks for that; the engine's
/// name; its date and thumbnail passed on unchanged where the reading keeps dates, and
/// none otherwise; and its number, counted from 1.
pub proof fn lemma_page_results_fields(
    r: Result<SearchResponse, SearchError>,
    query: Seq<char>,
    engine: Seq<char>,
    ps: Seq<ParsedText>,
    reading: PageReading,
    elapsed_ms: u64,
    next_page: Option<Seq<char>>,
)
    requires
        page_response(r, query, engine, Ok(ps), reading, elapsed_ms, next_page),
    ensures
        r matches Ok(resp) && resp.results@.len() == ps.len() && forall|i: int|
            0 <= i < ps.len() ==> {
                let out = #[trigger] resp.results@[i];
                &&& out.title@ == ps[i].0
                &&& out.snippet@ == ps[i].2
                &&& out.engine@ == engine
                &&& out.position == Some((i + 1) as usize)
                &&& !reading.youtube_links ==> out.url@ == ps[i].1
                &&& reading.youtube_links ==> out.url@ == (if starts_with_seq(ps[i].1, "http"@) {
                    ps[i].1
                } else {
                    "https://www.youtube.com"@ + ps[i].1
                })
                &&& reading.keeps_dates ==> opt_view(out.published_date) == ps[i].3 && opt_view(
                    out.thumbnail,
                ) == ps[i].4
                &&& !reading.keeps_dates ==> out.published_date is None && out.thumbnail is None
            },
{
    let resp = r->Ok_0;
    assert forall|i: int| 0 <= i < ps.len() implies {
        let out = #[trigger] resp.results@[i];
        &&& out.title@ == ps[i].0
        &&& out.snippet@ == ps[i].2
        &&& out.engine@ == engine
        &&& out.position == Some((i + 1) as usize)
        &&& !reading.youtube_links ==> out.url@ == ps[i].1
        &&& reading.youtube_links ==> out.url@ == (if starts_with_seq(ps[i].1, "http"@) {
            ps[i].1
        } else {
            "https://www.youtube.com"@ + ps[i].1
        })
        &&& reading.keeps_dates ==> opt_view(out.published_date) == ps[i].3 && opt_view(out.thumbnail)
            == ps[i].4
        &&& !reading.keeps_dates ==> out.published_date is None && out.thumbnail is None
    } by {
        let out = resp.results@[i];
        assert(result_text(out) == page_result(ps[i], engine, i, reading));
        if !reading.keeps_dates {
            assert(opt_view(out.published_date) is None);
            assert(opt_view(out.thumbnail) is None);
        }
    }
}

/// An engine whose reading keeps dates reports, for each result it read from its
/// page, the date and thumbnail the parser found for it, unchanged.
pub proof fn lemma_engine_keeps_dates(
    e: HtmlEngine,
    query: Seq<char>,
    html: Seq<char>,
    elapsed_ms: u64,
    r: Result<SearchResponse, SearchError>,
)
    requires
        read_answer(e, query, html, elapsed_ms, r),
        e.spec_reading().keeps_dates,
        engine_page_parse(e, html) is Ok,
    ensures
        r matches Ok(resp) && resp.results@.len() == engine_page_parse(e, html)->Ok_0.len()
            && forall|i: int|
            0 <= i < resp.results@.len() ==> opt_view((#[trigger] resp.results@[i]).published_date)
                == engine_page_parse(e, html)->Ok_0[i].3 && opt_view(resp.results@[i].thumbnail)
                == engine_page_parse(e, html)->Ok_0[i].4,
{
    lemma_page_results_fields(
        r,
        query,
        e.spec_name(),
        engine_page_parse(e, html)->Ok_0,
        e.spec_reading(),
        elapsed_ms,
        engine_next_link(e, html),
    );
}

/// A search engine read from its HTML result pages.
pub struct HtmlEngine {
    name: String,
    base_url: String,
    reports_blocking: bool,
    reading: PageReading,
    follows_next_page: bool,
    /// The attribute of a result's link element that holds its address.
    url_attr: String,
    parser: HtmlSearchParser,
}

impl HtmlEngine {
    pub closed spec fn spec_name(&self) -> Seq<char> {
        self.name@
    }

    pub closed spec fn spec_base_url(&self) -> Seq<char> {
        self.base_url@
    }

    pub closed spec fn spec_reports_blocking(&self) -> bool {
        self.reports_blocking
    }

    pub closed spec fn spec_reading(&self) -> PageReading {
        self.reading
    }

    pub closed spec fn spec_follows_next_page(&self) -> bool {
        self.follows_next_page
    }

    /// The attribute of a result's link element that holds its address.
    pub closed spec fn spec_url_attr(&self) -> Seq<char> {
        self.url_attr@
    }

    /// The selector config the engine reads its pages with, when its selectors parse.
    pub closed spec fn spec_selectors(&self) -> Option<SelectorConfig> {
        if self.parser@.contains_key(self.name@) {
            Some(self.parser@[self.name@])
        } else {
            None
        }
    }

    /// An engine reading pages with `config`; its selectors are registered only when
    /// they all parse.
    pub fn new(
        name: &str,
        base_url: &str,
        reports_blocking: bool,
        reading: PageReading,
        follows_next_page: bool,
        config: &SelectorConfig,
    ) -> (r: Self)
        ensures
            r.spec_name() == name@,
            r.spec_base_url() == base_url@,
            r.spec_reports_blocking() == reports_blocking,
            r.spec_reading() == reading,
            r.spec_follows_next_page() == follows_next_page,
            r.spec_url_attr() == "href"@,
            r.spec_selectors() == if first_invalid_selector(*config) is None {
                Some(*config)
            } else {
                None
            },
    {
        let mut parser = HtmlSearchParser::new();
        let _ = parser.register_engine(name, config);
        HtmlEngine {
            name: String::from_str(name),
            base_url: String::from_str(base_url),
            reports_blocking,
            reading,
            follows_next_page,
            url_attr: String::from_str("href"),
            parser,
        }
    }

    /// An engine reading pages with `config`; fails on the first selector of `config`
    /// that does not parse.
    pub fn try_new(
        name: &str,
        base_url: &str,
        reports_blocking: bool,
        reading: PageReading,
        follows_next_page: bool,
        url_attr: &str,
        config: &SelectorConfig,
    ) -> (r: Result<Self, ParserError>)
        ensures
            match first_invalid_selector(*config) {
                Some(bad) => r matches Err(e) && is_invalid_selector_error(e, bad.0, bad.1),
                None => r matches Ok(engine) && {
                    &&& engine.spec_name() == name@
                    &&& engine.spec_base_url() == base_url@
                    &&& engine.spec_reports_blocking() == reports_blocking
                    &&& engine.spec_reading() == reading
                    &&& engine.spec_follows_next_page() == follows_next_page
                    &&& engine.spec_url_attr() == url_attr@
                    &&& engine.spec_selectors() == Some(*config)
                },
            },
    {
        let mut parser = HtmlSearchParser::new();
        match parser.register_engine(name, config) {
            Ok(()) => {},
            Err(e) => {
                return Err(e);
            },
        }
        Ok(
            HtmlEngine {
                name: String::from_str(name),
                base_url: String::from_str(base_url),
                reports_blocking,
                reading,
                follows_next_page,
                url_attr: String::from_str(url_attr),
                parser,
            },
        )
    }

    pub fn name(&self) -> (r: &str)
        ensures
            r@ == self.spec_name(),
    {
        self.name.as_str()
    }

    pub fn base_url(&self) -> (r: &str)
        ensures
            r@ == self.spec_base_url(),
    {
        self.base_url.as_str()
    }

    /// Reads the status of the reply.
    pub fn check_status(&self, code: u16) -> (r: Result<(), SearchError>)
        requires
            100 <= code <= 999,
        ensures
            status_verdict(r, self.spec_name(), code, self.spec_reports_blocking()),
    {
        check_status(self.name.as_str(), code, self.reports_blocking)
    }

    /// The response to `query` from the result page `html`, which took `elapsed_ms`
    /// (see `read_answer`): the results the parser reads from the page with the
    /// engine's selectors, link attribute and site, numbered from 1, or a parse error;
    /// the next-page link where the engine follows one.
    pub fn respond(&self, query: &str, html: &str, elapsed_ms: u64) -> (r: Result<
        SearchResponse,
        SearchError,
    >)
        ensures
            read_answer(*self, query@, html@, elapsed_ms, r),
    {
        let parsed = self.parser.parse_with_link_attr(
            self.name.as_str(),
            html,
            self.base_url.as_str(),
            self.url_attr.as_str(),
        );
        let next = if self.follows_next_page {
            self.parser.extract_next_page(self.name.as_str(), html)
        } else {
            None
        };
        proof {
            if self.spec_selectors() is Some {
                lemma_page_outcome_text(
                    parsed,
                    page_raws(html@, self.spec_selectors().unwrap(), self.url_attr@),
                    self.base_url@,
                );
            }
        }
        respond_from_page(query, self.name.as_str(), parsed, self.reading, elapsed_ms, next)
    }

    /// The outcome of a search of `query` from what came back for its request (see
    /// `html_outcome`); `elapsed_ms` is the time the search took.
    pub fn answer(&self, query: &str, reply: Reply<Result<String, String>>, elapsed_ms: u64) -> (r: Result<
        SearchResponse,
        SearchError,
    >)
        requires
            reply_status_valid(reply),
        ensures
            html_outcome(*self, query@, reply, elapsed_ms, r),
    {
        match reply {
            Reply::Unsent(m) => Err(SearchError::Network(m)),
            Reply::Received { status, body } => {
                match self.check_status(status) {
                    Err(e) => {
                        return Err(e);
                    },
                    Ok(()) => {},
                }
                match body {
                    Err(m) => Err(SearchError::Network(m)),
                    Ok(html) => self.respond(query, html.as_str(), elapsed_ms),
                }
            },
        }
    }
}

/// What came back for a search request: nothing, when it could not be sent (with the
/// error's text), or a status and a body.
pub enum Reply<B> {
    Unsent(String),
    Received { status: u16, body: B },
}

/// Whether a reply with status `code` fails the search (see `status_verdict`).
pub open spec fn status_fails(code: u16, reports_blocking: bool) -> bool {
    code == 429 || (reports_blocking && (code == 403 || code == 503)) || !is_success_status(code)
}

/// Whether the status of a reply is a status code.
pub open spec fn reply_status_valid<B>(reply: Reply<B>) -> bool {
    reply matches Reply::Received { status, .. } ==> 100 <= status <= 999
}

/// What engine `e` reads from its result page `html`: with its selectors, link
/// attribute and site, the results of `page_parse`; without valid selectors, no
/// results.
pub open spec fn engine_page_parse(e: HtmlEngine, html: Seq<char>) -> Result<Seq<ParsedText>, Seq<char>> {
    match e.spec_selectors() {
        Some(c) => page_parse(html, c, e.spec_url_attr(), e.spec_base_url()),
        None => Err("No results found"@),
    }
}

/// The next-page link engine `e` passes on from page `html`: the one `page_next_link`
/// finds, where the engine follows next-page links and has valid selectors.
pub open spec fn engine_next_link(e: HtmlEngine, html: Seq<char>) -> Option<Seq<char>> {
    match e.spec_selectors() {
        Some(c) => if e.spec_follows_next_page() {
            page_next_link(html, c)
        } else {
            None
        },
        None => None,
    }
}

/// The answer of engine `e` to `query` read from its result page `html`: the results
/// it reads there (see `engine_page_parse`), numbered from 1, or a parse error; the
/// next-page link where it follows one.
pub open spec fn read_answer(
    e: HtmlEngine,
    query: Seq<char>,
    html: Seq<char>,
    elapsed_ms: u64,
    r: Result<SearchResponse, SearchError>,
) -> bool {
    page_response(
        r,
        query,
        e.spec_name(),
        engine_page_parse(e, html),
        e.spec_reading(),
        elapsed_ms,
        engine_next_link(e, html),
    )
}

/// The outcome of a search on engine `e` from what came back: a network error when
/// the request could not be sent or the page could not be read, the status's error
/// when it fails the search, else the answer read from the page.
pub open spec fn html_outcome(
    e: HtmlEngine,
    query: Seq<char>,
    reply: Reply<Result<String, String>>,
    elapsed_ms: u64,
    r: Result<SearchResponse, SearchError>,
) -> bool {
    match reply {
        Reply::Unsent(m) => r == Err::<SearchResponse, SearchError>(SearchError::Network(m)),
        Reply::Received { status, body } => if status_fails(status, e.spec_reports_blocking()) {
            status_verdict(r, e.spec_name(), status, e.spec_reports_blocking())
        } else {
            match body {
                Err(m) => r == Err::<SearchResponse, SearchError>(SearchError::Network(m)),
                Ok(html) => read_answer(e, query, html@, elapsed_ms, r),
            }
        },
    }
}

/// What every search engine tells about itself.
pub trait SearchEngine {
    spec fn spec_name(&self) -> Seq<char>;

    spec fn spec_base_url(&self) -> Seq<char>;

    spec fn spec_available(&self) -> bool;

    /// The engine's name.
    fn name(&self) -> (r: &str)
        ensures
            r@ == self.spec_name(),
    ;

    /// The address of the engine's site.
    fn base_url(&self) -> (r: &str)
        ensures
            r@ == self.spec_base_url(),
    ;

    /// Whether the engine takes searches.
    fn is_available(&self) -> (r: bool)
        ensures
            r == self.spec_available(),
    ;
}

/// The language asked for, English by default.
pub open spec fn language_of(options: SearchOptions) -> Seq<char> {
    match options.language {
        Some(l) => l@,
        None => "en"@,
    }
}

/// The region asked for, the United States by default.
pub open spec fn region_of(options: SearchOptions) -> Seq<char> {
    match options.region {
        Some(r) => r@,
        None => "us"@,
    }
}

/// The page asked for (counted from 0), the first by default.
pub open spec fn page_of(options: SearchOptions) -> int {
    match options.page {
        Some(p) => p as int,
        None => 0,
    }
}

/// The query as it goes into an address.
pub open spec fn encoded_query(query: Seq<char>) -> Seq<char> {
    percent_encoded(encode_utf8(query))
}

pub fn language_or_default(options: &SearchOptions) -> (r: &str)
    ensures
        r@ == language_of(*options),
{
    match &options.language {
        Some(l) => l.as_str(),
        None => "en",
    }
}

pub fn region_or_default(options: &SearchOptions) -> (r: &str)
    ensures
        r@ == region_of(*options),
{
    match &options.region {
        Some(l) => l.as_str(),
        None => "us",
    }
}

pub fn page_or_default(options: &SearchOptions) -> (r: usize)
    ensures
        r == page_of(*options),
{
    match options.page {
        Some(p) => p,
        None => 0,
    }
}

/// A GET request for `url` with the browser headers.
fn browser_get(url: String) -> (r: SearchRequest)
    ensures
        r.method == HttpMethod::Get,
        r.url == url,
        browser_headers(pairs_text(r.headers@)),
        r.form@.len() == 0,
        r.timeout_ms is None,
{
    SearchRequest {
        method: HttpMethod::Get,
        url,
        headers: browser_header_list(),
        form: Vec::new(),
        timeout_ms: None,
    }
}

/// The Google search address for a query.
pub open spec fn google_url(query: Seq<char>, options: SearchOptions) -> Seq<char> {
    "https://www.google.com/search?q="@ + encoded_query(query) + "&hl="@ + language_of(options)
        + "&start="@ + decimal((page_of(options) * options.page_size) as nat) + match options.region {
        Some(r) => "&gl="@ + r@,
        None => seq![],
    } + if options.safe_search == Some(true) {
        "&safe=active"@
    } else {
        seq![]
    }
}

/// The reading engine `GoogleSearch::new` builds, as its fields and selectors are.
pub open spec fn is_google_engine(h: HtmlEngine) -> bool {
    &&& h.spec_name() == "google"@
    &&& h.spec_base_url() == "https://www.google.com"@
    &&& h.spec_reports_blocking()
    &&& h.spec_reading() == (PageReading { keeps_dates: true, youtube_links: false })
    &&& h.spec_follows_next_page()
    &&& h.spec_url_attr() == "href"@
    &&& exists|c: SelectorConfig|
        is_google_selectors(c) && h.spec_selectors() == if first_invalid_selector(c) is None {
            Some(c)
        } else {
            None
        }
}

/// Google, read from its HTML result pages.
pub struct GoogleSearch {
    engine: HtmlEngine,
}

impl GoogleSearch {
    pub closed spec fn html(&self) -> HtmlEngine {
        self.engine
    }

    /// The Google engine: it reports blocking, keeps dates and thumbnails, and follows
    /// next-page links.
    pub fn new() -> (r: Self)
        ensures
            r.spec_name() == "google"@,
            r.spec_base_url() == "https://www.google.com"@,
            r.spec_available(),
            is_google_engine(r.html()),
    {
        let config = google_selectors();
        let engine = HtmlEngine::new(
            "google",
            "https://www.google.com",
            true,
            PageReading { keeps_dates: true, youtube_links: false },
            true,
            &config,
        );
        GoogleSearch { engine }
    }

    /// The engine that reads Google's pages.
    pub fn html_engine(&self) -> (r: &HtmlEngine)
        ensures
            *r == self.html(),
    {
        &self.engine
    }

    /// The address of a Google search: the query, the language (English by default),
    /// the index of the first result, the region where given, and safe search where
    /// asked for.
    pub fn build_url(&self, query: &str, options: &SearchOptions) -> (r: String)
        requires
            page_of(*options) * options.page_size <= usize::MAX,
        ensures
            r@ == google_url(query@, *options),
    {
        let lang = language_or_default(options);
        let page = page_or_default(options);
        let start = page * options.page_size;
        let mut url = String::from_str("https://www.google.com/search?q=");
        let q = url_encode(query);
        append_str(&mut url, q.as_str());
        append_str(&mut url, "&hl=");
        append_str(&mut url, lang);
        append_str(&mut url, "&start=");
        let st = decimal_string(start as u64);
        append_str(&mut url, st.as_str());
        let ghost before_region = url@;
        match &options.region {
            Some(region) => {
                append_str(&mut url, "&gl=");
                append_str(&mut url, region.as_str());
            },
            None => {},
        }
        let ghost before_safe = url@;
        if options.safe_search == Some(true) {
            append_str(&mut url, "&safe=active");
        }
        proof {
            if options.region is None {
                assert(before_safe =~= before_region + Seq::<char>::empty());
            }
            if options.safe_search != Some(true) {
                assert(url@ =~= before_safe + Seq::<char>::empty());
            }
        }
        url
    }

    /// The request for a Google search: a GET of the search address with the browser
    /// headers.
    pub fn request(&self, query: &str, options: &SearchOptions) -> (r: SearchRequest)
        requires
            page_of(*options) * options.page_size <= usize::MAX,
        ensures
            browser_request(r, google_url(query@, *options)),
    {
        browser_get(self.build_url(query, options))
    }
}

impl SearchEngine for GoogleSearch {
    open spec fn spec_name(&self) -> Seq<char> {
        self.html().spec_name()
    }

    open spec fn spec_base_url(&self) -> Seq<char> {
        self.html().spec_base_url()
    }

    open spec fn spec_available(&self) -> bool {
        true
    }

    fn name(&self) -> (r: &str) {
        self.engine.name()
    }

    fn base_url(&self) -> (r: &str) {
        self.engine.base_url()
    }

    fn is_available(&self) -> (r: bool) {
        true
    }
}

/// The Bing search address for a query.
pub open spec fn bing_url(query: Seq<char>, options: SearchOptions) -> Seq<char> {
    "https://www.bing.com/search?q="@ + encoded_query(query) + "&setlang="@ + language_of(options)
        + "&mkt="@ + upper_cased(language_of(options)) + "-"@ + upper_cased(region_of(options))
        + "&first="@ + decimal((page_of(options) * options.page_size + 1) as nat)
}

/// The Brave search address for a query.
pub open spec fn brave_url(query: Seq<char>) -> Seq<char> {
    "https://search.brave.com/search?q="@ + encoded_query(query)
}

/// The Yahoo search address for a query.
pub open spec fn yahoo_url(query: Seq<char>) -> Seq<char> {
    "https://search.yahoo.com/search?p="@ + encoded_query(query)
}

/// The YouTube search address for a query.
pub open spec fn youtube_url(query: Seq<char>) -> Seq<char> {
    "https://www.youtube.com/results?search_query="@ + encoded_query(query)
}

/// The selectors Brave's pages are read with.
pub open spec fn is_brave_selectors(c: SelectorConfig) -> bool {
    c.holds(
        "https://search.brave.com/search?q={query}"@,
        "div.snippet[data-type=\"web\"]"@,
        "div.title"@,
        "a"@,
        ".generic-snippet .content"@,
        None,
        None,
        None,
        Some("a.next"@),
    )
}

/// The selectors Yahoo's pages are read with.
pub open spec fn is_yahoo_selectors(c: SelectorConfig) -> bool {
    c.holds(
        "https://search.yahoo.com/search?p={query}"@,
        "div.algo"@,
        ".compTitle h3"@,
        ".compTitle a"@,
        ".compText p"@,
        None,
        None,
        None,
        Some("a.next"@),
    )
}

/// The DuckDuckGo request: a POST of the query (and the language, where given) as a
/// form to the HTML endpoint, with a desktop user agent and `Accept` HTML.
pub open spec fn ddg_request(r: SearchRequest, query: Seq<char>, options: SearchOptions) -> bool {
    &&& r.method == HttpMethod::Post
    &&& r.url@ == "https://html.duckduckgo.com/html/"@
    &&& pairs_text(r.headers@).len() == 2
    &&& pairs_text(r.headers@)[0].0 == "User-Agent"@
    &&& desktop_agents().contains(pairs_text(r.headers@)[0].1)
    &&& pairs_text(r.headers@)[1] == ("Accept"@, "text/html"@)
    &&& pairs_text(r.form@) == match options.language {
        Some(l) => seq![("q"@, query), ("kl"@, l@)],
        None => seq![("q"@, query)],
    }
    &&& r.timeout_ms is None
}

/// The reading engine `DuckDuckGoSearch::new` builds, as its fields and selectors are.
pub open spec fn is_duckduckgo_engine(h: HtmlEngine) -> bool {
    &&& h.spec_name() == "duckduckgo"@
    &&& h.spec_base_url() == "https://html.duckduckgo.com"@
    &&& !h.spec_reports_blocking()
    &&& h.spec_reading() == (PageReading { keeps_dates: false, youtube_links: false })
    &&& h.spec_follows_next_page()
    &&& h.spec_url_attr() == "href"@
    &&& exists|c: SelectorConfig|
        is_duckduckgo_selectors(c) && h.spec_selectors() == if first_invalid_selector(c) is None {
            Some(c)
        } else {
            None
        }
}

/// DuckDuckGo, read from its HTML result pages.
pub struct DuckDuckGoSearch {
    engine: HtmlEngine,
}

impl DuckDuckGoSearch {
    pub closed spec fn html(&self) -> HtmlEngine {
        self.engine
    }

    /// The duckduckgo engine, reading its pages with its built-in selectors.
    pub fn new() -> (r: Self)
        ensures
            r.spec_name() == "duckduckgo"@,
            r.spec_base_url() == "https://html.duckduckgo.com"@,
            r.spec_available(),
            is_duckduckgo_engine(r.html()),
    {
        let config = duckduckgo_selectors();
        let engine = HtmlEngine::new(
            "duckduckgo",
            "https://html.duckduckgo.com",
            false,
            PageReading { keeps_dates: false, youtube_links: false },
            true,
            &config,
        );
        DuckDuckGoSearch { engine }
    }

    /// The engine that reads the result pages.
    pub fn html_engine(&self) -> (r: &HtmlEngine)
        ensures
            *r == self.html(),
    {
        &self.engine
    }

    /// The request for a DuckDuckGo search: a POST of the form `q` = query, and `kl` =
    /// language where one is given, to the HTML search page, with a desktop user agent
    /// and `Accept: text/html`.
    pub fn request(&self, query: &str, options: &SearchOptions) -> (r: SearchRequest)
        ensures
            ddg_request(r, query@, *options),
    {
        let mut headers: Vec<(String, String)> = Vec::new();
        let ua = random_desktop();
        headers.push((String::from_str("User-Agent"), ua));
        headers.push(pair("Accept", "text/html"));
        let mut form: Vec<(String, String)> = Vec::new();
        form.push(pair("q", query));
        match &options.language {
            Some(l) => form.push(pair("kl", l.as_str())),
            None => {},
        }
        proof {
            assert(pairs_text(headers@)[0].1 == ua@);
            if options.language is Some {
                assert(pairs_text(form@) =~= seq![("q"@, query@), ("kl"@, options.language.unwrap()@)]);
            } else {
                assert(pairs_text(form@) =~= seq![("q"@, query@)]);
            }
        }
        SearchRequest {
            method: HttpMethod::Post,
            url: String::from_str("https://html.duckduckgo.com/html/"),
            headers,
            form,
            timeout_ms: None,
        }
    }
}

impl SearchEngine for DuckDuckGoSearch {
    open spec fn spec_name(&self) -> Seq<char> {
        self.html().spec_name()
    }

    open spec fn spec_base_url(&self) -> Seq<char> {
        self.html().spec_base_url()
    }

    open spec fn spec_available(&self) -> bool {
        true
    }

    fn name(&self) -> (r: &str) {
        self.engine.name()
    }

    fn base_url(&self) -> (r: &str) {
        self.engine.base_url()
    }

    fn is_available(&self) -> (r: bool) {
        true
    }
}

/// The reading engine `BingSearch::new` builds, as its fields and selectors are.
pub open spec fn is_bing_engine(h: HtmlEngine) -> bool {
    &&& h.spec_name() == "bing"@
    &&& h.spec_base_url() == "https://www.bing.com"@
    &&& h.spec_reports_blocking()
    &&& h.spec_reading() == (PageReading { keeps_dates: false, youtube_links: false })
    &&& h.spec_follows_next_page()
    &&& h.spec_url_attr() == "href"@
    &&& exists|c: SelectorConfig|
        is_bing_selectors(c) && h.spec_selectors() == if first_invalid_selector(c) is None {
            Some(c)
        } else {
            None
        }
}

/// Bing, read from its HTML result pages.
pub struct BingSearch {
    engine: HtmlEngine,
}

impl BingSearch {
    pub closed spec fn html(&self) -> HtmlEngine {
        self.engine
    }

    /// The bing engine, reading its pages with its built-in selectors.
    pub fn new() -> (r: Self)
        ensures
            r.spec_name() == "bing"@,
            r.spec_base_url() == "https://www.bing.com"@,
            r.spec_available(),
            is_bing_engine(r.html()),
    {
        let config = bing_selectors();
        let engine = HtmlEngine::new(
            "bing",
            "https://www.bing.com",
            true,
            PageReading { keeps_dates: false, youtube_links: false },
            true,
            &config,
        );
        BingSearch { engine }
    }

    /// The engine that reads the result pages.
    pub fn html_engine(&self) -> (r: &HtmlEngine)
        ensures
            *r == self.html(),
    {
        &self.engine
    }

    /// The address of a Bing search: the query, the language (English by default), the
    /// market `LANG-REGION` in upper case (region `us` by default), and the 1-based
    /// index of the first result.
    pub fn build_url(&self, query: &str, options: &SearchOptions) -> (r: String)
        requires
            page_of(*options) * options.page_size + 1 <= usize::MAX,
        ensures
            r@ == bing_url(query@, *options),
    {
        let lang = language_or_default(options);
        let region = region_or_default(options);
        let page = page_or_default(options);
        let first = page * options.page_size + 1;
        let mut url = String::from_str("https://www.bing.com/search?q=");
        let q = url_encode(query);
        append_str(&mut url, q.as_str());
        append_str(&mut url, "&setlang=");
        append_str(&mut url, lang);
        append_str(&mut url, "&mkt=");
        let lu = to_upper(lang);
        append_str(&mut url, lu.as_str());
        append_str(&mut url, "-");
        let ru = to_upper(region);
        append_str(&mut url, ru.as_str());
        append_str(&mut url, "&first=");
        let f = decimal_string(first as u64);
        append_str(&mut url, f.as_str());
        url
    }

    /// The request for a Bing search: a GET of the search address with the browser
    /// headers.
    pub fn request(&self, query: &str, options: &SearchOptions) -> (r: SearchRequest)
        requires
            page_of(*options) * options.page_size + 1 <= usize::MAX,
        ensures
            browser_request(r, bing_url(query@, *options)),
    {
        browser_get(self.build_url(query, options))
    }
}

impl SearchEngine for BingSearch {
    open spec fn spec_name(&self) -> Seq<char> {
        self.html().spec_name()
    }

    open spec fn spec_base_url(&self) -> Seq<char> {
        self.html().spec_base_url()
    }

    open spec fn spec_available(&self) -> bool {
        true
    }

    fn name(&self) -> (r: &str) {
        self.engine.name()
    }

    fn base_url(&self) -> (r: &str) {
        self.engine.base_url()
    }

    fn is_available(&self) -> (r: bool) {
        true
    }
}

/// The reading engine `BraveSearch::new` builds, as its fields and selectors are.
pub open spec fn is_brave_engine(h: HtmlEngine) -> bool {
    &&& h.spec_name() == "brave"@
    &&& h.spec_base_url() == "https://search.brave.com"@
    &&& !h.spec_reports_blocking()
    &&& h.spec_reading() == (PageReading { keeps_dates: true, youtube_links: false })
    &&& h.spec_follows_next_page()
    &&& h.spec_url_attr() == "href"@
    &&& exists|c: SelectorConfig|
        is_brave_selectors(c) && h.spec_selectors() == if first_invalid_selector(c) is None {
            Some(c)
        } else {
            None
        }
}

/// Brave Search, read from its HTML result pages.
pub struct BraveSearch {
    engine: HtmlEngine,
}

impl BraveSearch {
    pub closed spec fn html(&self) -> HtmlEngine {
        self.engine
    }

    /// The brave engine, reading its pages with its built-in selectors.
    pub fn new() -> (r: Self)
        ensures
            r.spec_name() == "brave"@,
            r.spec_base_url() == "https://search.brave.com"@,
            r.spec_available(),
            is_brave_engine(r.html()),
    {
        let config = SelectorConfig::build(
            "https://search.brave.com/search?q={query}",
            "div.snippet[data-type=\"web\"]",
            "div.title",
            "a",
            ".generic-snippet .content",
            None,
            None,
            None,
            Some("a.next"),
        );
        assert(is_brave_selectors(config));
        let engine = HtmlEngine::new(
            "brave",
            "https://search.brave.com",
            false,
            PageReading { keeps_dates: true, youtube_links: false },
            true,
            &config,
        );
        BraveSearch { engine }
    }

    /// The engine that reads the result pages.
    pub fn html_engine(&self) -> (r: &HtmlEngine)
        ensures
            *r == self.html(),
    {
        &self.engine
    }

    /// The request for a Brave search: a GET of the search address for the query (options play no part), with the browser headers.
    pub fn request(&self, query: &str, options: &SearchOptions) -> (r: SearchRequest)
        ensures
            browser_request(r, brave_url(query@)),
    {
        let mut url = String::from_str("https://search.brave.com/search?q=");
        let q = url_encode(query);
        append_str(&mut url, q.as_str());
        browser_get(url)
    }
}

impl SearchEngine for BraveSearch {
    open spec fn spec_name(&self) -> Seq<char> {
        self.html().spec_name()
    }

    open spec fn spec_base_url(&self) -> Seq<char> {
        self.html().spec_base_url()
    }

    open spec fn spec_available(&self) -> bool {
        true
    }

    fn name(&self) -> (r: &str) {
        self.engine.name()
    }

    fn base_url(&self) -> (r: &str) {
        self.engine.base_url()
    }

    fn is_available(&self) -> (r: bool) {
        true
    }
}

/// The reading engine `YouTubeSearch::new` builds, as its fields and selectors are.
pub open spec fn is_youtube_engine(h: HtmlEngine) -> bool {
    &&& h.spec_name() == "youtube"@
    &&& h.spec_base_url() == "https://www.youtube.com"@
    &&& !h.spec_reports_blocking()
    &&& h.spec_reading() == (PageReading { keeps_dates: true, youtube_links: true })
    &&& !h.spec_follows_next_page()
    &&& h.spec_url_attr() == "href"@
    &&& exists|c: SelectorConfig|
        is_youtube_selectors(c) && h.spec_selectors() == if first_invalid_selector(c) is None {
            Some(c)
        } else {
            None
        }
}

/// YouTube, read from its HTML result pages.
pub struct YouTubeSearch {
    engine: HtmlEngine,
}

impl YouTubeSearch {
    pub closed spec fn html(&self) -> HtmlEngine {
        self.engine
    }

    /// The youtube engine, reading its pages with its built-in selectors.
    pub fn new() -> (r: Self)
        ensures
            r.spec_name() == "youtube"@,
            r.spec_base_url() == "https://www.youtube.com"@,
            r.spec_available(),
            is_youtube_engine(r.html()),
    {
        let config = youtube_selectors();
        let engine = HtmlEngine::new(
            "youtube",
            "https://www.youtube.com",
            false,
            PageReading { keeps_dates: true, youtube_links: true },
            false,
            &config,
        );
        YouTubeSearch { engine }
    }

    /// The engine that reads the result pages.
    pub fn html_engine(&self) -> (r: &HtmlEngine)
        ensures
            *r == self.html(),
    {
        &self.engine
    }

    /// The request for a YouTube search: a GET of the search address for the query (options play no part), with the browser headers.
    pub fn request(&self, query: &str, options: &SearchOptions) -> (r: SearchRequest)
        ensures
            browser_request(r, youtube_url(query@)),
    {
        let mut url = String::from_str("https://www.youtube.com/results?search_query=");
        let q = url_encode(query);
        append_str(&mut url, q.as_str());
        browser_get(url)
    }
}

impl SearchEngine for YouTubeSearch {
    open spec fn spec_name(&self) -> Seq<char> {
        self.html().spec_name()
    }

    open spec fn spec_base_url(&self) -> Seq<char> {
        self.html().spec_base_url()
    }

    open spec fn spec_available(&self) -> bool {
        true
    }

    fn name(&self) -> (r: &str) {
        self.engine.name()
    }

    fn base_url(&self) -> (r: &str) {
        self.engine.base_url()
    }

    fn is_available(&self) -> (r: bool) {
        true
    }
}

/// The reading engine `YahooSearch::new` builds, as its fields and selectors are.
pub open spec fn is_yahoo_engine(h: HtmlEngine) -> bool {
    &&& h.spec_name() == "yahoo"@
    &&& h.spec_base_url() == "https://search.yahoo.com"@
    &&& !h.spec_reports_blocking()
    &&& h.spec_reading() == (PageReading { keeps_dates: false, youtube_links: false })
    &&& h.spec_follows_next_page()
    &&& h.spec_url_attr() == "href"@
    &&& exists|c: SelectorConfig|
        is_yahoo_selectors(c) && h.spec_selectors() == if first_invalid_selector(c) is None {
            Some(c)
        } else {
            None
        }
}

/// Yahoo, read from its HTML result pages.
pub struct YahooSearch {
    engine: HtmlEngine,
}

impl YahooSearch {
    pub closed spec fn html(&self) -> HtmlEngine {
        self.engine
    }

    /// The yahoo engine, reading its pages with its built-in selectors.
    pub fn new() -> (r: Self)
        ensures
            r.spec_name() == "yahoo"@,
            r.spec_base_url() == "https://search.yahoo.com"@,
            r.spec_available(),
            is_yahoo_engine(r.html()),
    {
        let config = SelectorConfig::build(
            "https://search.yahoo.com/search?p={query}",
            "div.algo",
            ".compTitle h3",
            ".compTitle a",
            ".compText p",
            None,
            None,
            None,
            Some("a.next"),
        );
        assert(is_yahoo_selectors(config));
        let engine = HtmlEngine::new(
            "yahoo",
            "https://search.yahoo.com",
            false,
            PageReading { keeps_dates: false, youtube_links: false },
            true,
            &config,
        );
        YahooSearch { engine }
    }

    /// The engine that reads the result pages.
    pub fn html_engine(&self) -> (r: &HtmlEngine)
        ensures
            *r == self.html(),
    {
        &self.engine
    }

    /// The request for a Yahoo search: a GET of the search address for the query (options play no part), with the browser headers.
    pub fn request(&self, query: &str, options: &SearchOptions) -> (r: SearchRequest)
        ensures
            browser_request(r, yahoo_url(query@)),
    {
        let mut url = String::from_str("https://search.yahoo.com/search?p=");
        let q = url_encode(query);
        append_str(&mut url, q.as_str());
        browser_get(url)
    }
}

impl SearchEngine for YahooSearch {
    open spec fn spec_name(&self) -> Seq<char> {
        self.html().spec_name()
    }

    open spec fn spec_base_url(&self) -> Seq<char> {
        self.html().spec_base_url()
    }

    open spec fn spec_available(&self) -> bool {
        true
    }

    fn name(&self) -> (r: &str) {
        self.engine.name()
    }

    fn base_url(&self) -> (r: &str) {
        self.engine.base_url()
    }

    fn is_available(&self) -> (r: bool) {
        true
    }
}

} // verus!
