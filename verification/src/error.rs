//! Search errors, results, responses and options.
use vstd::prelude::*;
use crate::codec::{ascii_lower, is_ascii_text, is_lower_ascii, lower_cased, to_lower};
use crate::strings::{append_str, decimal, decimal_string, str_equal};

verus! {

/// What can go wrong in a search.
#[derive(Debug, Clone, PartialEq, Eq)]
pub enum SearchError {
    Network(String),
    Parse(String),
    RateLimited { engine: String },
    EngineUnavailable { engine: String, reason: String },
    NoResults { query: String },
    Config(String),
    Timeout(u64),
    Blocked { engine: String },
    /// Any other failure, by its message.
    Other(String),
}

/// The short name of each kind of error.
pub open spec fn error_type_of(e: SearchError) -> Seq<char> {
    match e {
        SearchError::Network(_) => "network"@,
        SearchError::Parse(_) => "parse"@,
        SearchError::RateLimited { .. } => "rate_limited"@,
        SearchError::EngineUnavailable { .. } => "engine_unavailable"@,
        SearchError::NoResults { .. } => "no_results"@,
        SearchError::Config(_) => "config"@,
        SearchError::Timeout(_) => "timeout"@,
        SearchError::Blocked { .. } => "blocked"@,
        SearchError::Other(_) => "other"@,
    }
}

/// The human-readable text of each error.
pub open spec fn error_message_of(e: SearchError) -> Seq<char> {
    match e {
        SearchError::Network(m) => "Network error: "@ + m@,
        SearchError::Parse(m) => "Parse error: "@ + m@,
        SearchError::RateLimited { engine } => "Rate limited by "@ + engine@,
        SearchError::EngineUnavailable { engine, reason } => "Engine unavailable: "@ + engine@
            + " — "@ + reason@,
        SearchError::NoResults { query } => "No results found for query: "@ + query@,
        SearchError::Config(m) => "Configuration error: "@ + m@,
        SearchError::Timeout(ms) => "Timeout after "@ + decimal(ms as nat) + "ms"@,
        SearchError::Blocked { engine } => "Blocked by captcha or bot detection on "@ + engine@,
        SearchError::Other(m) => m@,
    }
}

impl SearchError {
    /// The short name of the kind of error, as it is reported to clients.
    pub fn error_type(&self) -> (r: &'static str)
        ensures
            r@ == error_type_of(*self),
    {
        match self {
            SearchError::Network(_) => "network",
            SearchError::Parse(_) => "parse",
            SearchError::RateLimited { .. } => "rate_limited",
            SearchError::EngineUnavailable { .. } => "engine_unavailable",
            SearchError::NoResults { .. } => "no_results",
            SearchError::Config(_) => "config",
            SearchError::Timeout(_) => "timeout",
            SearchError::Blocked { .. } => "blocked",
            SearchError::Other(_) => "other",
        }
    }

    /// The human-readable text of the error.
    pub fn message(&self) -> (r: String)
        ensures
            r@ == error_message_of(*self),
    {
        match self {
            SearchError::Network(m) => {
                let mut s = String::from_str("Network error: ");
                append_str(&mut s, m.as_str());
                s
            },
            SearchError::Parse(m) => {
                let mut s = String::from_str("Parse error: ");
                append_str(&mut s, m.as_str());
                s
            },
            SearchError::RateLimited { engine } => {
                let mut s = String::from_str("Rate limited by ");
                append_str(&mut s, engine.as_str());
                s
            },
            SearchError::EngineUnavailable { engine, reason } => {
                let mut s = String::from_str("Engine unavailable: ");
                append_str(&mut s, engine.as_str());
                append_str(&mut s, " — ");
                append_str(&mut s, reason.as_str());
                s
            },
            SearchError::NoResults { query } => {
                let mut s = String::from_str("No results found for query: ");
                append_str(&mut s, query.as_str());
                s
            },
            SearchError::Config(m) => {
                let mut s = String::from_str("Configuration error: ");
                append_str(&mut s, m.as_str());
                s
            },
            SearchError::Timeout(ms) => {
                let mut s = String::from_str("Timeout after ");
                let d = decimal_string(*ms);
                append_str(&mut s, d.as_str());
                append_str(&mut s, "ms");
                s
            },
            SearchError::Blocked { engine } => {
                let mut s = String::from_str("Blocked by captcha or bot detection on ");
                append_str(&mut s, engine.as_str());
                s
            },
            SearchError::Other(m) => m.clone(),
        }
    }
}

/// One search result.
#[derive(Debug, Clone, PartialEq, Eq)]
pub struct SearchResult {
    pub title: String,
    pub url: String,
    pub snippet: String,
    pub engine: String,
    pub published_date: Option<String>,
    pub thumbnail: Option<String>,
    pub position: Option<usize>,
}

/// The results of one query on one engine.
#[derive(Debug, Clone, PartialEq, Eq)]
pub struct SearchResponse {
    pub query: String,
    pub results: Vec<SearchResult>,
    pub total_results: Option<usize>,
    pub engine: String,
    pub search_time_ms: u64,
    pub next_page_token: Option<String>,
}

/// The responses of several engines to one query.
#[derive(Debug, Clone, PartialEq, Eq)]
pub struct MultiSearchResponse {
    pub query: String,
    pub responses: Vec<SearchResponse>,
    pub total_results: usize,
    pub search_time_ms: u64,
}

/// How far back results may date.
#[derive(Debug, Clone, Copy, PartialEq, Eq)]
pub enum TimeRange {
    Day,
    Week,
    Month,
    Year,
}

pub open spec fn time_range_text(t: TimeRange) -> Seq<char> {
    match t {
        TimeRange::Day => "day"@,
        TimeRange::Week => "week"@,
        TimeRange::Month => "month"@,
        TimeRange::Year => "year"@,
    }
}

impl TimeRange {
    /// The lower-case name of the range (`day`, `week`, `month`, `year`).
    pub fn as_str(&self) -> (r: &'static str)
        ensures
            r@ == time_range_text(*self),
    {
        match self {
            TimeRange::Day => "day",
            TimeRange::Week => "week",
            TimeRange::Month => "month",
            TimeRange::Year => "year",
        }
    }

    /// The lower-case name of the range, as an owned string.
    pub fn to_string(&self) -> (r: String)
        ensures
            r@ == time_range_text(*self),
    {
        String::from_str(self.as_str())
    }
}

/// The time range a lower-case name stands for: `day`/`24h`/`today`, `week`/`7d`,
/// `month`/`30d`, `year`/`365d`.
pub open spec fn range_of_lower(l: Seq<char>) -> Option<TimeRange> {
    if l == "day"@ || l == "24h"@ || l == "today"@ {
        Some(TimeRange::Day)
    } else if l == "week"@ || l == "7d"@ {
        Some(TimeRange::Week)
    } else if l == "month"@ || l == "30d"@ {
        Some(TimeRange::Month)
    } else if l == "year"@ || l == "365d"@ {
        Some(TimeRange::Year)
    } else {
        None
    }
}

/// The time range that a name stands for, compared without regard to case.
pub open spec fn time_range_named(s: Seq<char>) -> Option<TimeRange> {
    range_of_lower(lower_cased(s))
}

/// Reads a time range given by name; `None` for an unknown name. A name already in
/// lower case is read as it is.
pub fn parse_time_range(s: &str) -> (r: Option<TimeRange>)
    ensures
        r == time_range_named(s@),
        is_lower_ascii(s@) ==> r == range_of_lower(s@),
        is_ascii_text(s@) ==> r == range_of_lower(ascii_lower(s@)),
{
    let l = to_lower(s);
    let ls = l.as_str();
    if str_equal(ls, "day") || str_equal(ls, "24h") || str_equal(ls, "today") {
        Some(TimeRange::Day)
    } else if str_equal(ls, "week") || str_equal(ls, "7d") {
        Some(TimeRange::Week)
    } else if str_equal(ls, "month") || str_equal(ls, "30d") {
        Some(TimeRange::Month)
    } else if str_equal(ls, "year") || str_equal(ls, "365d") {
        Some(TimeRange::Year)
    } else {
        None
    }
}

/// The name of each time range is lower-case ASCII and reads back as that range, so
/// `parse_time_range` of `as_str` gives the range back.
pub proof fn lemma_time_range_names_read_back(t: TimeRange)
    ensures
        is_lower_ascii(time_range_text(t)),
        range_of_lower(time_range_text(t)) == Some(t),
{
    reveal_strlit("day");
    reveal_strlit("24h");
    reveal_strlit("today");
    reveal_strlit("week");
    reveal_strlit("7d");
    reveal_strlit("month");
    reveal_strlit("30d");
    reveal_strlit("year");
    reveal_strlit("365d");
    match t {
        TimeRange::Day => {
        },
        TimeRange::Week => {
            assert("week"@.len() != "day"@.len());
            assert("week"@.len() != "24h"@.len());
            assert("week"@.len() != "today"@.len());
        },
        TimeRange::Month => {
            assert("month"@.len() != "day"@.len());
            assert("month"@.len() != "24h"@.len());
            assert("month"@[0] != "today"@[0]);
            assert("month"@.len() != "week"@.len());
            assert("month"@.len() != "7d"@.len());
        },
        TimeRange::Year => {
            assert("year"@.len() != "day"@.len());
            assert("year"@.len() != "24h"@.len());
            assert("year"@.len() != "today"@.len());
            assert("year"@[0] != "week"@[0]);
            assert("year"@.len() != "7d"@.len());
            assert("year"@.len() != "month"@.len());
            assert("year"@.len() != "30d"@.len());
        },
    }
}

/// What a search asks of an engine.
#[derive(Debug, Clone, Default, PartialEq, Eq)]
pub struct SearchOptions {
    pub language: Option<String>,
    pub region: Option<String>,
    pub page_size: usize,
    pub page: Option<usize>,
    pub safe_search: Option<bool>,
    pub time_range: Option<TimeRange>,
}

/// The page size when none is given.
pub fn default_page_size() -> (r: usize)
    ensures
        r == 10,
{
    10
}

/// The engine timeout in milliseconds when none is given.
pub fn default_timeout() -> (r: u64)
    ensures
        r == 5000,
{
    5_000
}

} // verus!
