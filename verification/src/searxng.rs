//! SearXNG, a metasearch instance queried through its JSON interface.
use vstd::prelude::*;
use crate::codec::url_encode;
use crate::engines::{
    check_status, reply_status_valid, status_fails, Reply, encoded_query, page_of, page_or_default, pairs_text, pair, result_text,
    status_verdict, HttpMethod, ResultText, SearchEngine, SearchRequest,
};
use crate::error::{
    time_range_text, SearchError, SearchOptions, SearchResponse, SearchResult, TimeRange,
};
use crate::strings::{append_str, decimal, decimal_string};
use crate::types::{copy_opt, opt_view};

verus! {

/// The instance asked when none is configured.
pub open spec fn default_instance() -> Seq<char> {
    "https://search.sapti.me"@
}

/// One result as a SearXNG instance lists it.
#[derive(Debug, Clone, PartialEq, Eq)]
pub struct SearxngItem {
    pub title: String,
    pub url: String,
    pub content: Option<String>,
    /// The engine the instance got the result from.
    pub engine: Option<String>,
    pub published_date: Option<String>,
}

/// The JSON answer of a SearXNG instance.
#[derive(Debug, Clone, PartialEq, Eq)]
pub struct SearxngPage {
    pub results: Vec<SearxngItem>,
    /// The number of results the instance says it has.
    pub number_of_results: Option<u64>,
}

/// The search address on `instance`: the query, JSON format and the page counted from
/// 1, then the language, the time range and the safe-search level (2 when on, 0 when
/// off) where they are given.
pub open spec fn searxng_url(instance: Seq<char>, query: Seq<char>, options: SearchOptions) -> Seq<char> {
    instance + "/search?q="@ + encoded_query(query) + "&format=json&pageno="@ + decimal(
        (page_of(options) + 1) as nat,
    ) + match options.language {
        Some(l) => "&language="@ + l@,
        None => seq![],
    } + match options.time_range {
        Some(t) => "&time_range="@ + time_range_text(t),
        None => seq![],
    } + match options.safe_search {
        Some(true) => "&safesearch=2"@,
        Some(false) => "&safesearch=0"@,
        None => seq![],
    }
}

/// The SearXNG request: a GET of the search address accepting JSON.
pub open spec fn searxng_request(
    r: SearchRequest,
    instance: Seq<char>,
    query: Seq<char>,
    options: SearchOptions,
) -> bool {
    &&& r.method == HttpMethod::Get
    &&& r.url@ == searxng_url(instance, query, options)
    &&& pairs_text(r.headers@) == seq![("Accept"@, "application/json"@)]
    &&& r.form@.len() == 0
    &&& r.timeout_ms is None
}

/// The `i`-th result (0-based) of a SearXNG answer: an absent content is an empty
/// snippet, an absent engine is `searxng`; no thumbnail.
pub open spec fn searxng_result(item: SearxngItem, i: int) -> ResultText {
    (
        item.title@,
        item.url@,
        match item.content {
            Some(c) => c@,
            None => seq![],
        },
        match item.engine {
            Some(e) => e@,
            None => "searxng"@,
        },
        opt_view(item.published_date),
        None,
        Some((i + 1) as usize),
    )
}

/// The response to `query` from a SearXNG answer, or the parse error with the
/// message of the failed reading.
pub open spec fn searxng_response(
    r: Result<SearchResponse, SearchError>,
    query: Seq<char>,
    page: Result<SearxngPage, String>,
    elapsed_ms: u64,
) -> bool {
    match page {
        Err(msg) => r matches Err(SearchError::Parse(m)) && m@ == msg@,
        Ok(p) => r matches Ok(resp) && {
            &&& resp.query@ == query
            &&& resp.engine@ == "searxng"@
            &&& resp.total_results == Some(
                match p.number_of_results {
                    Some(n) => n as usize,
                    None => p.results@.len() as usize,
                },
            )
            &&& resp.search_time_ms == elapsed_ms
            &&& resp.next_page_token is None
            &&& resp.results@.len() == p.results@.len()
            &&& forall|i: int|
                0 <= i < p.results@.len() ==> result_text(#[trigger] resp.results@[i])
                    == searxng_result(p.results@[i], i)
        },
    }
}

/// The outcome of a search on SearXNG from what came back: a network error when the
/// request could not be sent, the status's error when it fails the search (the
/// instance reports blocking), else the response read from the answer.
pub open spec fn searxng_outcome(
    query: Seq<char>,
    reply: Reply<Result<SearxngPage, String>>,
    elapsed_ms: u64,
    r: Result<SearchResponse, SearchError>,
) -> bool {
    match reply {
        Reply::Unsent(m) => r == Err::<SearchResponse, SearchError>(SearchError::Network(m)),
        Reply::Received { status, body } => if status_fails(status, true) {
            status_verdict(r, "searxng"@, status, true)
        } else {
            searxng_response(r, query, body, elapsed_ms)
        },
    }
}

/// SearXNG, asked on one instance.
pub struct SearXNGSearch {
    instance_url: String,
}

impl SearXNGSearch {
    pub closed spec fn instance(&self) -> Seq<char> {
        self.instance_url@
    }

    /// The engine on the configured instance, or on the default instance when none is
    /// configured.
    pub fn new(configured: Option<String>) -> (r: Self)
        ensures
            r.instance() == match configured {
                Some(u) => u@,
                None => default_instance(),
            },
    {
        let instance_url = match configured {
            Some(u) => u,
            None => String::from_str("https://search.sapti.me"),
        };
        SearXNGSearch { instance_url }
    }

    /// The engine on `instance_url`.
    pub fn with_instance(instance_url: &str) -> (r: Self)
        ensures
            r.instance() == instance_url@,
    {
        SearXNGSearch { instance_url: String::from_str(instance_url) }
    }

    /// The search address for `query` (see `searxng_url`).
    pub fn build_url(&self, query: &str, options: &SearchOptions) -> (r: String)
        requires
            page_of(*options) + 1 <= usize::MAX,
        ensures
            r@ == searxng_url(self.instance(), query@, *options),
    {
        let page = page_or_default(options) + 1;
        let mut url = self.instance_url.clone();
        append_str(&mut url, "/search?q=");
        let q = url_encode(query);
        append_str(&mut url, q.as_str());
        append_str(&mut url, "&format=json&pageno=");
        let p = decimal_string(page as u64);
        append_str(&mut url, p.as_str());
        let ghost after_page = url@;
        match &options.language {
            Some(l) => {
                append_str(&mut url, "&language=");
                append_str(&mut url, l.as_str());
            },
            None => {},
        }
        let ghost after_lang = url@;
        match &options.time_range {
            Some(t) => {
                append_str(&mut url, "&time_range=");
                append_str(&mut url, t.as_str());
            },
            None => {},
        }
        let ghost after_time = url@;
        match options.safe_search {
            Some(true) => append_str(&mut url, "&safesearch=2"),
            Some(false) => append_str(&mut url, "&safesearch=0"),
            None => {},
        }
        proof {
            if options.language is None {
                assert(after_lang =~= after_page + Seq::<char>::empty());
            }
            if options.time_range is None {
                assert(after_time =~= after_lang + Seq::<char>::empty());
            }
            if options.safe_search is None {
                assert(url@ =~= after_time + Seq::<char>::empty());
            }
        }
        url
    }

    /// The request for a search: a GET of the search address accepting JSON.
    pub fn request(&self, query: &str, options: &SearchOptions) -> (r: SearchRequest)
        requires
            page_of(*options) + 1 <= usize::MAX,
        ensures
            searxng_request(r, self.instance(), query@, *options),
    {
        let url = self.build_url(query, options);
        let mut headers: Vec<(String, String)> = Vec::new();
        headers.push(pair("Accept", "application/json"));
        assert(pairs_text(headers@) =~= seq![("Accept"@, "application/json"@)]);
        SearchRequest { method: HttpMethod::Get, url, headers, form: Vec::new(), timeout_ms: None }
    }

    /// Reads the status of the reply; the instance reports blocking.
    pub fn check_status(&self, code: u16) -> (r: Result<(), SearchError>)
        requires
            100 <= code <= 999,
        ensures
            status_verdict(r, "searxng"@, code, true),
    {
        check_status("searxng", code, true)
    }

    /// The response to `query` from the instance's answer (see `searxng_response`).
    pub fn respond(&self, query: &str, page: Result<SearxngPage, String>, elapsed_ms: u64) -> (r:
        Result<SearchResponse, SearchError>)
        ensures
            searxng_response(r, query@, page, elapsed_ms),
    {
        let p = match page {
            Ok(p) => p,
            Err(msg) => {
                return Err(SearchError::Parse(msg));
            },
        };
        let mut results: Vec<SearchResult> = Vec::new();
        let n = p.results.len();
        for i in 0..n
            invariant
                n == p.results@.len(),
                results@.len() == i,
                forall|j: int|
                    0 <= j < i ==> result_text(#[trigger] results@[j]) == searxng_result(
                        p.results@[j],
                        j,
                    ),
        {
            let item = &p.results[i];
            let snippet = match &item.content {
                Some(c) => c.clone(),
                None => String::new(),
            };
            let engine = match &item.engine {
                Some(e) => e.clone(),
                None => String::from_str("searxng"),
            };
            let r = SearchResult {
                title: item.title.clone(),
                url: item.url.clone(),
                snippet,
                engine,
                published_date: copy_opt(&item.published_date),
                thumbnail: None,
                position: Some(i + 1),
            };
            assert(result_text(r) == searxng_result(p.results@[i as int], i as int));
            results.push(r);
        }
        let total = match p.number_of_results {
            Some(k) => k as usize,
            None => results.len(),
        };
        Ok(
            SearchResponse {
                query: String::from_str(query),
                results,
                total_results: Some(total),
                engine: String::from_str("searxng"),
                search_time_ms: elapsed_ms,
                next_page_token: None,
            },
        )
    }

    /// The outcome of a search of `query` from what came back for its request (see
    /// `searxng_outcome`); a body that could not be read as a SearXNG answer gives
    /// the reading's error.
    pub fn answer(&self, query: &str, reply: Reply<Result<SearxngPage, String>>, elapsed_ms: u64) -> (r:
        Result<SearchResponse, SearchError>)
        requires
            reply_status_valid(reply),
        ensures
            searxng_outcome(query@, reply, elapsed_ms, r),
    {
        match reply {
            Reply::Unsent(m) => Err(SearchError::Network(m)),
            Reply::Received { status, body } => {
                match self.check_status(status) {
                    Err(e) => {
                        return Err(e);
                    },
                    Ok(()) => {},
                }
                self.respond(query, body, elapsed_ms)
            },
        }
    }
}

impl SearchEngine for SearXNGSearch {
    open spec fn spec_name(&self) -> Seq<char> {
        "searxng"@
    }

    open spec fn spec_base_url(&self) -> Seq<char> {
        self.instance()
    }

    open spec fn spec_available(&self) -> bool {
        true
    }

    fn name(&self) -> (r: &str) {
        proof {
            reveal_strlit("searxng");
        }
        "searxng"
    }

    fn base_url(&self) -> (r: &str) {
        self.instance_url.as_str()
    }

    fn is_available(&self) -> (r: bool) {
        true
    }
}

/// What the response makes of each item of a SearXNG answer, in order: its title and
/// link as they are; its content as snippet, or an empty snippet; the engine the
/// instance names, or `searxng`; its date passed on unchanged; no thumbnail; and its
/// number, counted from 1.
pub proof fn lemma_searxng_results_fields(
    r: Result<SearchResponse, SearchError>,
    query: Seq<char>,
    page: SearxngPage,
    elapsed_ms: u64,
)
    requires
        searxng_response(r, query, Ok(page), elapsed_ms),
    ensures
        r matches Ok(resp) && resp.results@.len() == page.results@.len() && forall|i: int|
            0 <= i < page.results@.len() ==> {
                let out = #[trigger] resp.results@[i];
                let item = page.results@[i];
                &&& out.title@ == item.title@
                &&& out.url@ == item.url@
                &&& item.content matches Some(c) ==> out.snippet@ == c@
                &&& item.content is None ==> out.snippet@.len() == 0
                &&& item.engine matches Some(e) ==> out.engine@ == e@
                &&& item.engine is None ==> out.engine@ == "searxng"@
                &&& opt_view(out.published_date) == opt_view(item.published_date)
                &&& out.thumbnail is None
                &&& out.position == Some((i + 1) as usize)
            },
{
    let resp = r->Ok_0;
    assert forall|i: int| 0 <= i < page.results@.len() implies {
        let out = #[trigger] resp.results@[i];
        let item = page.results@[i];
        &&& out.title@ == item.title@
        &&& out.url@ == item.url@
        &&& item.content matches Some(c) ==> out.snippet@ == c@
        &&& item.content is None ==> out.snippet@.len() == 0
        &&& item.engine matches Some(e) ==> out.engine@ == e@
        &&& item.engine is None ==> out.engine@ == "searxng"@
        &&& opt_view(out.published_date) == opt_view(item.published_date)
        &&& out.thumbnail is None
        &&& out.position == Some((i + 1) as usize)
    } by {
        let out = resp.results@[i];
        assert(result_text(out) == searxng_result(page.results@[i], i));
        assert(opt_view(out.thumbnail) is None);
    }
}

/// The SearXNG address asks for exactly the time range requested, by its own name:
/// `&time_range=day`, `week`, `month` or `year` stands in it for a day, a week, a
/// month or a year, right after the page number and the language.
pub proof fn lemma_searxng_time_range(instance: Seq<char>, query: Seq<char>, options: SearchOptions)
    ensures
        options.time_range matches Some(t) ==> exists|start: int, end: int|
            #![trigger searxng_url(instance, query, options).subrange(start, end)]
            {
                &&& 0 <= start <= end <= searxng_url(instance, query, options).len()
                &&& searxng_url(instance, query, options).subrange(start, end) == "&time_range="@
                    + match t {
                    TimeRange::Day => "day"@,
                    TimeRange::Week => "week"@,
                    TimeRange::Month => "month"@,
                    TimeRange::Year => "year"@,
                }
            },
{
    if let Some(t) = options.time_range {
        let pre = instance + "/search?q="@ + encoded_query(query) + "&format=json&pageno="@ + decimal(
            (page_of(options) + 1) as nat,
        ) + match options.language {
            Some(l) => "&language="@ + l@,
            None => seq![],
        };
        let post: Seq<char> = match options.safe_search {
            Some(true) => "&safesearch=2"@,
            Some(false) => "&safesearch=0"@,
            None => seq![],
        };
        let name = match t {
            TimeRange::Day => "day"@,
            TimeRange::Week => "week"@,
            TimeRange::Month => "month"@,
            TimeRange::Year => "year"@,
        };
        let url = searxng_url(instance, query, options);
        let mid = "&time_range="@ + name;
        assert(url =~= pre + mid + post);
        assert(url.subrange(pre.len() as int, (pre.len() + mid.len()) as int) =~= mid);
    }
}

} // verus!
