//! What the server's tools take and give, and how they turn search responses into
//! their answers: the search output, the merged and de-duplicated multi-engine
//! results, the health of an engine, and the CSV and Markdown exports.
use vstd::prelude::*;
use crate::aggregator::ok_responses;
use crate::error::{
    error_message_of, parse_time_range, time_range_named, SearchError, SearchOptions,
    SearchResponse, SearchResult,
};
use crate::strings::{append_str, decimal, decimal_string, replace_all, replace_str, str_equal};
use crate::types::opt_view;

verus! {

/// The input of a search: the query, an engine (all engines when none), and what is
/// asked of the results.
#[derive(Debug, Clone, PartialEq, Eq)]
pub struct SearchInput {
    pub query: String,
    pub engine: Option<String>,
    pub language: Option<String>,
    pub region: Option<String>,
    pub page_size: usize,
    pub page: Option<usize>,
    /// `day`, `week`, `month` or `year` (see `parse_time_range`).
    pub time_range: Option<String>,
    pub safe_search: Option<bool>,
}

/// One result as a tool gives it.
#[derive(Debug, Clone, PartialEq, Eq)]
pub struct SearchResultOutput {
    pub title: String,
    pub url: String,
    pub snippet: String,
    pub engine: String,
    pub published_date: Option<String>,
    pub position: Option<usize>,
}

/// The answer of a search.
#[derive(Debug, Clone, PartialEq, Eq)]
pub struct SearchOutput {
    pub query: String,
    pub results: Vec<SearchResultOutput>,
    pub total_results: usize,
    pub engine: String,
    pub search_time_ms: u64,
}

/// One query of a multi-engine search, for one engine.
#[derive(Debug, Clone, PartialEq, Eq)]
pub struct MultiSearchQuery {
    pub engine: String,
    pub query: String,
}

/// The input of a multi-engine search.
#[derive(Debug, Clone, PartialEq, Eq)]
pub struct MultiSearchInput {
    pub queries: Vec<MultiSearchQuery>,
    pub language: Option<String>,
    pub region: Option<String>,
    pub time_range: Option<String>,
    pub safe_search: Option<bool>,
    /// Whether results with a link seen before are left out.
    pub dedup: bool,
}

/// The answer of a multi-engine search.
#[derive(Debug, Clone, PartialEq, Eq)]
pub struct MultiSearchOutput {
    pub responses: Vec<SearchOutput>,
    pub total_results: usize,
    pub search_time_ms: u64,
    /// How many results were left out as duplicates.
    pub duplicates_removed: usize,
}

/// The input of the engine listing, which takes nothing.
#[derive(Debug, Clone, Copy, PartialEq, Eq)]
pub struct EnginesInput {}

/// How an engine answered a health check.
#[derive(Debug, Clone, PartialEq, Eq)]
pub struct EngineHealth {
    pub name: String,
    /// `healthy` or `unhealthy`.
    pub status: String,
    pub latency_ms: u64,
    pub results_count: usize,
    /// The message of the error of an unhealthy engine.
    pub error: Option<String>,
}

/// The formats results are exported in.
#[derive(Debug, Clone, Copy, PartialEq, Eq)]
pub enum ExportFormat {
    Json,
    Csv,
    Markdown,
}

/// The export format when none is asked for.
pub fn default_export_format() -> (r: String)
    ensures
        r@ == "json"@,
{
    String::from_str("json")
}

/// A multi-engine search merges results when not told otherwise.
pub fn default_true() -> (r: bool)
    ensures
        r,
{
    true
}

/// The format a name asks for: `csv`, `markdown`, and JSON for any other name.
pub open spec fn export_format_named(s: Seq<char>) -> ExportFormat {
    if s == "csv"@ {
        ExportFormat::Csv
    } else if s == "markdown"@ {
        ExportFormat::Markdown
    } else {
        ExportFormat::Json
    }
}

/// The format asked for by `name`.
pub fn export_format(name: &str) -> (r: ExportFormat)
    ensures
        r == export_format_named(name@),
{
    if str_equal(name, "csv") {
        ExportFormat::Csv
    } else if str_equal(name, "markdown") {
        ExportFormat::Markdown
    } else {
        ExportFormat::Json
    }
}

/// The options of a search input; an unknown time range is left out.
pub fn search_options(input: &SearchInput) -> (r: SearchOptions)
    ensures
        r.language == input.language,
        r.region == input.region,
        r.page_size == input.page_size,
        r.page == input.page,
        r.safe_search == input.safe_search,
        r.time_range == match input.time_range {
            Some(t) => time_range_named(t@),
            None => None,
        },
{
    let time_range = match &input.time_range {
        Some(t) => parse_time_range(t.as_str()),
        None => None,
    };
    SearchOptions {
        language: input.language.clone(),
        region: input.region.clone(),
        page_size: input.page_size,
        page: input.page,
        safe_search: input.safe_search,
        time_range,
    }
}

/// The options of a multi-engine search: ten results of the first page.
pub fn multi_search_options(input: &MultiSearchInput) -> (r: SearchOptions)
    ensures
        r.language == input.language,
        r.region == input.region,
        r.page_size == 10,
        r.page is None,
        r.safe_search == input.safe_search,
        r.time_range == match input.time_range {
            Some(t) => time_range_named(t@),
            None => None,
        },
{
    let time_range = match &input.time_range {
        Some(t) => parse_time_range(t.as_str()),
        None => None,
    };
    SearchOptions {
        language: input.language.clone(),
        region: input.region.clone(),
        page_size: 10,
        page: None,
        safe_search: input.safe_search,
        time_range,
    }
}

/// A result as a tool gives it: all but the thumbnail.
pub open spec fn output_of(r: SearchResult) -> SearchResultOutput {
    SearchResultOutput {
        title: r.title,
        url: r.url,
        snippet: r.snippet,
        engine: r.engine,
        published_date: r.published_date,
        position: r.position,
    }
}

/// The result `r` as a tool gives it.
pub fn result_output(r: SearchResult) -> (o: SearchResultOutput)
    ensures
        o == output_of(r),
        o.title == r.title,
        o.url == r.url,
        o.snippet == r.snippet,
        o.engine == r.engine,
        o.published_date == r.published_date,
        o.position == r.position,
{
    SearchResultOutput {
        title: r.title,
        url: r.url,
        snippet: r.snippet,
        engine: r.engine,
        published_date: r.published_date,
        position: r.position,
    }
}

/// All results of `items`, as a tool gives them, in order.
fn outputs_of(items: Vec<SearchResult>) -> (r: Vec<SearchResultOutput>)
    ensures
        r@ == items@.map_values(|x: SearchResult| output_of(x)),
{
    let ghost all = items@;
    let mut rest = items;
    let mut out: Vec<SearchResultOutput> = Vec::new();
    let n = rest.len();
    let mut i: usize = 0;
    while i < n
        invariant
            n == all.len(),
            i <= n,
            rest@ == all.subrange(i as int, n as int),
            out@ == all.take(i as int).map_values(|x: SearchResult| output_of(x)),
        decreases n - i,
    {
        let x = rest.remove(0);
        assert(all[i as int] == x);
        out.push(result_output(x));
        assert(all.take(i + 1).map_values(|x: SearchResult| output_of(x)) =~= all.take(
            i as int,
        ).map_values(|x: SearchResult| output_of(x)).push(output_of(all[i as int])));
        assert(rest@ =~= all.subrange(i + 1, n as int));
        i = i + 1;
    }
    assert(all.take(n as int) =~= all);
    out
}

/// The answer of a search from the response of an engine; a response without total
/// counts none.
pub fn search_output(response: SearchResponse) -> (r: SearchOutput)
    ensures
        r.query == response.query,
        r.results@ == response.results@.map_values(|x: SearchResult| output_of(x)),
        r.results@.len() == response.results@.len(),
        forall|i: int|
            0 <= i < response.results@.len() ==> {
                let o = #[trigger] r.results@[i];
                let x = response.results@[i];
                &&& o.title == x.title
                &&& o.url == x.url
                &&& o.snippet == x.snippet
                &&& o.engine == x.engine
                &&& o.published_date == x.published_date
                &&& o.position == x.position
            },
        r.total_results == match response.total_results {
            Some(t) => t,
            None => 0,
        },
        r.engine == response.engine,
        r.search_time_ms == response.search_time_ms,
{
    let total = match response.total_results {
        Some(t) => t,
        None => 0,
    };
    SearchOutput {
        query: response.query,
        results: outputs_of(response.results),
        total_results: total,
        engine: response.engine,
        search_time_ms: response.search_time_ms,
    }
}

/// The answer of a failed search: no results, under the engine asked for or
/// `unknown`.
pub fn failed_search_output(query: String, engine: Option<String>) -> (r: SearchOutput)
    ensures
        r.query == query,
        r.results@.len() == 0,
        r.total_results == 0,
        r.engine@ == match engine {
            Some(e) => e@,
            None => "unknown"@,
        },
        r.search_time_ms == 0,
{
    let engine = match engine {
        Some(e) => e,
        None => String::from_str("unknown"),
    };
    SearchOutput { query, results: Vec::new(), total_results: 0, engine, search_time_ms: 0 }
}

/// The results of all successful responses, as a tool gives them, in order.
pub open spec fn all_outputs(responses: Seq<SearchResponse>) -> Seq<SearchResultOutput>
    decreases responses.len(),
{
    if responses.len() == 0 {
        seq![]
    } else {
        all_outputs(responses.drop_last()) + responses.last().results@.map_values(
            |x: SearchResult| output_of(x),
        )
    }
}

/// Whether a result with link `url` is among `s`.
pub open spec fn url_seen(s: Seq<SearchResultOutput>, url: Seq<char>) -> bool {
    exists|i: int| 0 <= i < s.len() && (#[trigger] s[i]).url@ == url
}

/// The results of `s` whose link was not seen before, in order.
pub open spec fn first_occurrences(s: Seq<SearchResultOutput>) -> Seq<SearchResultOutput>
    decreases s.len(),
{
    if s.len() == 0 {
        seq![]
    } else {
        let d = first_occurrences(s.drop_last());
        if url_seen(d, s.last().url@) {
            d
        } else {
            d.push(s.last())
        }
    }
}

/// The results of `s` numbered from 1 in their new order.
pub open spec fn numbered(s: Seq<SearchResultOutput>) -> Seq<SearchResultOutput> {
    Seq::new(s.len(), |i: int| SearchResultOutput { position: Some((i + 1) as usize), ..s[i] })
}

/// The results of a multi-engine search before numbering: those of all successful
/// responses, without the repeated links where asked.
pub open spec fn merged_results(outcomes: Seq<Result<SearchResponse, SearchError>>, dedup: bool) -> Seq<
    SearchResultOutput,
> {
    let all = all_outputs(ok_responses(outcomes));
    if dedup {
        first_occurrences(all)
    } else {
        all
    }
}

/// Whether one of `kept` has the link `url`.
fn has_url(kept: &Vec<SearchResultOutput>, url: &str) -> (r: bool)
    ensures
        r == url_seen(kept@, url@),
{
    let n = kept.len();
    for i in 0..n
        invariant
            n == kept@.len(),
            forall|j: int| 0 <= j < i ==> kept@[j].url@ != url@,
    {
        if str_equal(kept[i].url.as_str(), url) {
            assert(kept@[i as int].url@ == url@);
            return true;
        }
    }
    false
}

/// The links of the numbered results are those of the results.
proof fn lemma_numbered_urls(s: Seq<SearchResultOutput>, url: Seq<char>)
    ensures
        url_seen(numbered(s), url) == url_seen(s, url),
{
    if url_seen(s, url) {
        let i = choose|i: int| 0 <= i < s.len() && (#[trigger] s[i]).url@ == url;
        assert(numbered(s)[i].url@ == url);
    }
    if url_seen(numbered(s), url) {
        let i = choose|i: int| 0 <= i < numbered(s).len() && (#[trigger] numbered(s)[i]).url@ == url;
        assert(s[i].url@ == url);
    }
}

/// The results of all successful responses, as a tool gives them, in order.
fn flatten_outputs(outcomes: Vec<Result<SearchResponse, SearchError>>) -> (r: Vec<SearchResultOutput>)
    ensures
        r@ == all_outputs(ok_responses(outcomes@)),
{
    let ghost all = outcomes@;
    let mut rest = outcomes;
    let mut flat: Vec<SearchResultOutput> = Vec::new();
    let n = rest.len();
    let mut i: usize = 0;
    while i < n
        invariant
            n == all.len(),
            i <= n,
            rest@ == all.subrange(i as int, n as int),
            flat@ == all_outputs(ok_responses(all.take(i as int))),
        decreases n - i,
    {
        let o = rest.remove(0);
        assert(all.take(i + 1).drop_last() =~= all.take(i as int));
        assert(all.take(i + 1).last() == o);
        match o {
            Ok(resp) => {
                proof {
                    let done = ok_responses(all.take(i + 1));
                    assert(done == ok_responses(all.take(i as int)).push(resp));
                    assert(done.drop_last() =~= ok_responses(all.take(i as int)));
                }
                let mut outs = outputs_of(resp.results);
                flat.append(&mut outs);
            },
            Err(_) => {},
        }
        assert(rest@ =~= all.subrange(i + 1, n as int));
        i = i + 1;
    }
    assert(all.take(n as int) =~= all);
    flat
}

/// `items` numbered from 1, without the results whose link came before when `dedup`
/// is set.
fn dedup_numbered(items: Vec<SearchResultOutput>, dedup: bool) -> (r: Vec<SearchResultOutput>)
    ensures
        r@ == numbered(
            if dedup {
                first_occurrences(items@)
            } else {
                items@
            },
        ),
{
    let ghost all = items@;
    let mut rest = items;
    let mut kept: Vec<SearchResultOutput> = Vec::new();
    let n = rest.len();
    let mut i: usize = 0;
    assert(kept@ =~= numbered(
        if dedup {
            first_occurrences(all.take(0))
        } else {
            all.take(0)
        },
    ));
    while i < n
        invariant
            n == all.len(),
            i <= n,
            rest@ == all.subrange(i as int, n as int),
            kept@ == numbered(
                if dedup {
                    first_occurrences(all.take(i as int))
                } else {
                    all.take(i as int)
                },
            ),
            kept@.len() <= i,
        decreases n - i,
    {
        let o = rest.remove(0);
        assert(all[i as int] == o);
        let ghost prev = if dedup {
            first_occurrences(all.take(i as int))
        } else {
            all.take(i as int)
        };
        assert(all.take(i + 1).drop_last() =~= all.take(i as int));
        assert(all.take(i + 1).last() == o);
        let seen = if dedup {
            has_url(&kept, o.url.as_str())
        } else {
            false
        };
        proof {
            lemma_numbered_urls(prev, o.url@);
            lemma_first_occurrences_len(all.take(i as int));
        }
        if !seen {
            let pos = kept.len() + 1;
            kept.push(SearchResultOutput { position: Some(pos), ..o });
            assert(kept@ =~= numbered(prev.push(all[i as int])));
        } else {
            assert(prev =~= first_occurrences(all.take(i + 1)));
        }
        assert(rest@ =~= all.subrange(i + 1, n as int));
        i = i + 1;
    }
    assert(all.take(n as int) =~= all);
    kept
}

/// The results of a multi-engine search: those of the successful responses in order,
/// without repeated links when `dedup` is set, numbered from 1; and how many were
/// left out.
pub fn merge_search_results(outcomes: Vec<Result<SearchResponse, SearchError>>, dedup: bool) -> (r: (
    Vec<SearchResultOutput>,
    usize,
))
    ensures
        r.0@ == numbered(merged_results(outcomes@, dedup)),
        r.1 == all_outputs(ok_responses(outcomes@)).len() - r.0@.len(),
{
    let flat = flatten_outputs(outcomes);
    let total = flat.len();
    proof {
        lemma_first_occurrences_len(flat@);
    }
    let kept = dedup_numbered(flat, dedup);
    let removed = total - kept.len();
    (kept, removed)
}

/// De-duplicating never adds results.
proof fn lemma_first_occurrences_len(s: Seq<SearchResultOutput>)
    ensures
        first_occurrences(s).len() <= s.len(),
    decreases s.len(),
{
    if s.len() > 0 {
        lemma_first_occurrences_len(s.drop_last());
    }
}

/// The answer of a multi-engine search that took `elapsed_ms`: one response under
/// `multi` for the first query (empty when there is none), holding the merged results
/// (see `merge_search_results`).
pub fn multi_search_output(
    input: &MultiSearchInput,
    outcomes: Vec<Result<SearchResponse, SearchError>>,
    elapsed_ms: u64,
) -> (r: MultiSearchOutput)
    ensures
        r.responses@.len() == 1,
        r.responses@[0].query@ == if input.queries@.len() > 0 {
            input.queries@[0].query@
        } else {
            Seq::<char>::empty()
        },
        r.responses@[0].results@ == numbered(merged_results(outcomes@, input.dedup)),
        r.responses@[0].total_results == r.responses@[0].results@.len(),
        r.responses@[0].engine@ == "multi"@,
        r.responses@[0].search_time_ms == elapsed_ms,
        r.total_results == r.responses@[0].results@.len(),
        r.search_time_ms == elapsed_ms,
        r.duplicates_removed == all_outputs(ok_responses(outcomes@)).len()
            - r.responses@[0].results@.len(),
{
    let (results, removed) = merge_search_results(outcomes, input.dedup);
    let total = results.len();
    let query = if input.queries.len() > 0 {
        input.queries[0].query.clone()
    } else {
        String::new()
    };
    let mut responses: Vec<SearchOutput> = Vec::new();
    responses.push(
        SearchOutput {
            query,
            results,
            total_results: total,
            engine: String::from_str("multi"),
            search_time_ms: elapsed_ms,
        },
    );
    MultiSearchOutput {
        responses,
        total_results: total,
        search_time_ms: elapsed_ms,
        duplicates_removed: removed,
    }
}

/// How an engine that answered `outcome` in `latency_ms` fares: healthy with its
/// number of results, or unhealthy with the message of its error.
pub fn engine_health(name: String, outcome: &Result<SearchResponse, SearchError>, latency_ms: u64) -> (r:
    EngineHealth)
    ensures
        r.name == name,
        r.latency_ms == latency_ms,
        match outcome {
            Ok(resp) => r.status@ == "healthy"@ && r.results_count == resp.results@.len()
                && r.error is None,
            Err(e) => r.status@ == "unhealthy"@ && r.results_count == 0 && opt_view(r.error)
                == Some(error_message_of(*e)),
        },
{
    match outcome {
        Ok(resp) => EngineHealth {
            name,
            status: String::from_str("healthy"),
            latency_ms,
            results_count: resp.results.len(),
            error: None,
        },
        Err(e) => EngineHealth {
            name,
            status: String::from_str("unhealthy"),
            latency_ms,
            results_count: 0,
            error: Some(e.message()),
        },
    }
}

/// A position as written in an export; 0 for a result without one.
pub open spec fn position_text(p: Option<usize>) -> Seq<char> {
    decimal(
        match p {
            Some(x) => x as nat,
            None => 0,
        },
    )
}

/// A text in a CSV field: each double quote doubled.
pub open spec fn csv_quoted(s: Seq<char>) -> Seq<char> {
    replace_all(s, "\""@, "\"\""@)
}

/// The CSV line of a result: position, then title, link, snippet, engine and date in
/// double quotes (title and snippet with their quotes doubled).
pub open spec fn csv_row(r: SearchResult) -> Seq<char> {
    position_text(r.position) + ",\""@ + csv_quoted(r.title@) + "\",\""@ + r.url@ + "\",\""@
        + csv_quoted(r.snippet@) + "\",\""@ + r.engine@ + "\",\""@ + match r.published_date {
        Some(d) => d@,
        None => seq![],
    } + "\"\n"@
}

pub open spec fn csv_rows(rs: Seq<SearchResult>) -> Seq<char>
    decreases rs.len(),
{
    if rs.len() == 0 {
        seq![]
    } else {
        csv_rows(rs.drop_last()) + csv_row(rs.last())
    }
}

/// The CSV export of a response: a header line, then one line per result.
pub open spec fn csv_text(response: SearchResponse) -> Seq<char> {
    "position,title,url,snippet,engine,published_date\n"@ + csv_rows(response.results@)
}

/// The text of an optional position.
fn position_string(p: Option<usize>) -> (r: String)
    ensures
        r@ == position_text(p),
{
    match p {
        Some(x) => decimal_string(x as u64),
        None => decimal_string(0),
    }
}

/// The response's results as CSV (see `csv_text`).
#[verifier::rlimit(40)]
pub fn export_csv(response: &SearchResponse) -> (r: String)
    ensures
        r@ == csv_text(*response),
{
    proof {
        reveal_strlit("\"");
    }
    let mut csv = String::from_str("position,title,url,snippet,engine,published_date\n");
    let n = response.results.len();
    for i in 0..n
        invariant
            n == response.results@.len(),
            csv@ == "position,title,url,snippet,engine,published_date\n"@ + csv_rows(
                response.results@.take(i as int),
            ),
            "\""@.len() > 0,
    {
        let r = &response.results[i];
        let ghost before = csv@;
        let p = position_string(r.position);
        append_str(&mut csv, p.as_str());
        append_str(&mut csv, ",\"");
        let t = replace_str(r.title.as_str(), "\"", "\"\"");
        append_str(&mut csv, t.as_str());
        append_str(&mut csv, "\",\"");
        append_str(&mut csv, r.url.as_str());
        append_str(&mut csv, "\",\"");
        let sn = replace_str(r.snippet.as_str(), "\"", "\"\"");
        append_str(&mut csv, sn.as_str());
        append_str(&mut csv, "\",\"");
        append_str(&mut csv, r.engine.as_str());
        append_str(&mut csv, "\",\"");
        match &r.published_date {
            Some(d) => append_str(&mut csv, d.as_str()),
            None => {},
        }
        append_str(&mut csv, "\"\n");
        proof {
            let rs = response.results@.take(i + 1);
            assert(rs.drop_last() =~= response.results@.take(i as int));
            assert(rs.last() == *r);
            assert(csv@ =~= before + csv_row(*r));
        }
    }
    assert(response.results@.take(n as int) =~= response.results@);
    csv
}

/// The Markdown line of a result: its position, its title linked to its address in
/// bold, then its snippet indented on the next line.
pub open spec fn markdown_row(r: SearchResult) -> Seq<char> {
    position_text(r.position) + ". **["@ + r.title@ + "]("@ + r.url@ + ")**\n   "@ + r.snippet@
        + "\n\n"@
}

pub open spec fn markdown_rows(rs: Seq<SearchResult>) -> Seq<char>
    decreases rs.len(),
{
    if rs.len() == 0 {
        seq![]
    } else {
        markdown_rows(rs.drop_last()) + markdown_row(rs.last())
    }
}

/// The Markdown export of a response: a heading with the query and the engine, then
/// one entry per result.
pub open spec fn markdown_text(response: SearchResponse) -> Seq<char> {
    "## Search Results: \""@ + response.query@ + "\" ("@ + response.engine@ + ")\n\n"@
        + markdown_rows(response.results@)
}

/// The response's results as Markdown (see `markdown_text`).
pub fn export_markdown(response: &SearchResponse) -> (r: String)
    ensures
        r@ == markdown_text(*response),
{
    let mut md = String::from_str("## Search Results: \"");
    append_str(&mut md, response.query.as_str());
    append_str(&mut md, "\" (");
    append_str(&mut md, response.engine.as_str());
    append_str(&mut md, ")\n\n");
    let ghost head = md@;
    assert(head =~= "## Search Results: \""@ + response.query@ + "\" ("@ + response.engine@ + ")\n\n"@ + markdown_rows(response.results@.take(0)));
    let n = response.results.len();
    for i in 0..n
        invariant
            n == response.results@.len(),
            md@ == "## Search Results: \""@ + response.query@ + "\" ("@ + response.engine@
                + ")\n\n"@ + markdown_rows(response.results@.take(i as int)),
    {
        let r = &response.results[i];
        let ghost before = md@;
        let p = position_string(r.position);
        append_str(&mut md, p.as_str());
        append_str(&mut md, ". **[");
        append_str(&mut md, r.title.as_str());
        append_str(&mut md, "](");
        append_str(&mut md, r.url.as_str());
        append_str(&mut md, ")**\n   ");
        append_str(&mut md, r.snippet.as_str());
        append_str(&mut md, "\n\n");
        proof {
            let rs = response.results@.take(i + 1);
            assert(rs.drop_last() =~= response.results@.take(i as int));
            assert(rs.last() == *r);
            assert(md@ =~= before + markdown_row(*r));
        }
    }
    assert(response.results@.take(n as int) =~= response.results@);
    md
}

/// A Markdown export of a response without results is its heading alone: the query in
/// double quotes and the engine in brackets.
pub proof fn lemma_markdown_no_results(response: SearchResponse)
    requires
        response.results@.len() == 0,
    ensures
        markdown_text(response) == "## Search Results: \""@ + response.query@ + "\" ("@
            + response.engine@ + ")\n\n"@,
{
    assert(markdown_text(response) =~= "## Search Results: \""@ + response.query@ + "\" ("@
        + response.engine@ + ")\n\n"@);
}

/// One more result at the end of a response adds exactly its entry at the end of the
/// Markdown export, after those of the results before it: its position, its title
/// linked to its address in bold, then its snippet indented on the next line.
pub proof fn lemma_markdown_one_more(a: SearchResponse, b: SearchResponse, x: SearchResult)
    requires
        b.query@ == a.query@,
        b.engine@ == a.engine@,
        b.results@ == a.results@.push(x),
    ensures
        markdown_text(b) == markdown_text(a) + position_text(x.position) + ". **["@ + x.title@ + "]("@
            + x.url@ + ")**\n   "@ + x.snippet@ + "\n\n"@,
{
    assert(b.results@.drop_last() =~= a.results@);
    assert(markdown_text(b) =~= markdown_text(a) + position_text(x.position) + ". **["@ + x.title@
        + "]("@ + x.url@ + ")**\n   "@ + x.snippet@ + "\n\n"@);
}

/// A CSV export of a response without results is its header line alone.
pub proof fn lemma_csv_no_results(response: SearchResponse)
    requires
        response.results@.len() == 0,
    ensures
        csv_text(response) == "position,title,url,snippet,engine,published_date\n"@,
{
    assert(csv_text(response) =~= "position,title,url,snippet,engine,published_date\n"@);
}

/// One more result at the end of a response adds exactly its line at the end of the
/// CSV export, after those of the results before it: its position, then its title,
/// link, snippet, engine and date in double quotes.
pub proof fn lemma_csv_one_more(a: SearchResponse, b: SearchResponse, x: SearchResult)
    requires
        b.results@ == a.results@.push(x),
    ensures
        csv_text(b) == csv_text(a) + position_text(x.position) + ",\""@ + csv_quoted(x.title@)
            + "\",\""@ + x.url@ + "\",\""@ + csv_quoted(x.snippet@) + "\",\""@ + x.engine@ + "\",\""@
            + match x.published_date {
            Some(d) => d@,
            None => seq![],
        } + "\"\n"@,
{
    assert(b.results@.drop_last() =~= a.results@);
    assert(csv_text(b) =~= csv_text(a) + position_text(x.position) + ",\""@ + csv_quoted(x.title@)
        + "\",\""@ + x.url@ + "\",\""@ + csv_quoted(x.snippet@) + "\",\""@ + x.engine@ + "\",\""@
        + match x.published_date {
        Some(d) => d@,
        None => seq![],
    } + "\"\n"@);
}

/// After de-duplication no two results share a link.
pub proof fn lemma_first_occurrences_unique(s: Seq<SearchResultOutput>)
    ensures
        forall|i: int, j: int|
            0 <= i < j < first_occurrences(s).len() ==> (#[trigger] first_occurrences(s)[i]).url@
                != (#[trigger] first_occurrences(s)[j]).url@,
    decreases s.len(),
{
    if s.len() > 0 {
        lemma_first_occurrences_unique(s.drop_last());
        let d = first_occurrences(s.drop_last());
        if !url_seen(d, s.last().url@) {
            assert forall|i: int, j: int|
                0 <= i < j < first_occurrences(s).len() implies (#[trigger] first_occurrences(s)[i]).url@
                    != (#[trigger] first_occurrences(s)[j]).url@ by {
                if j == d.len() {
                    assert(d[i].url@ != s.last().url@);
                } else {
                    assert(first_occurrences(s)[i] == d[i]);
                    assert(first_occurrences(s)[j] == d[j]);
                }
            }
        }
    }
}

/// De-duplication loses no link, and keeps only results that were there.
pub proof fn lemma_first_occurrences_cover(s: Seq<SearchResultOutput>)
    ensures
        forall|i: int| 0 <= i < s.len() ==> url_seen(first_occurrences(s), (#[trigger] s[i]).url@),
        forall|i: int|
            0 <= i < first_occurrences(s).len() ==> s.contains(#[trigger] first_occurrences(s)[i]),
    decreases s.len(),
{
    if s.len() > 0 {
        let p = s.drop_last();
        lemma_first_occurrences_cover(p);
        let d = first_occurrences(p);
        let f = first_occurrences(s);
        assert forall|i: int| 0 <= i < s.len() implies url_seen(f, (#[trigger] s[i]).url@) by {
            if i < p.len() {
                assert(p[i] == s[i]);
                assert(url_seen(d, p[i].url@));
                let k = choose|k: int| 0 <= k < d.len() && (#[trigger] d[k]).url@ == p[i].url@;
                assert(f[k] == d[k]);
            } else if !url_seen(d, s.last().url@) {
                assert(f[d.len() as int] == s.last());
            }
        }
        assert forall|i: int| 0 <= i < f.len() implies s.contains(#[trigger] f[i]) by {
            if i < d.len() {
                assert(f[i] == d[i]);
                assert(p.contains(d[i]));
                let k = choose|k: int| 0 <= k < p.len() && p[k] == d[i];
                assert(s[k] == p[k]);
            } else {
                assert(f[i] == s[s.len() - 1]);
            }
        }
    }
}

/// The results of a merged multi-engine search with de-duplication: no two share a
/// link, every link of a successful response is among them, each is a result of a
/// successful response, and they are numbered 1, 2, ... in order.
pub proof fn lemma_multi_search_dedup(outcomes: Seq<Result<SearchResponse, SearchError>>)
    ensures
        ({
            let all = all_outputs(ok_responses(outcomes));
            let out = numbered(merged_results(outcomes, true));
            &&& forall|i: int, j: int|
                0 <= i < j < out.len() ==> (#[trigger] out[i]).url@ != (#[trigger] out[j]).url@
            &&& forall|i: int| 0 <= i < all.len() ==> url_seen(out, (#[trigger] all[i]).url@)
            &&& forall|i: int|
                0 <= i < out.len() ==> (#[trigger] out[i]).position == Some((i + 1) as usize)
                    && exists|k: int|
                    0 <= k < all.len() && (SearchResultOutput { position: all[k].position, ..out[i] })
                        == #[trigger] all[k]
        }),
{
    let all = all_outputs(ok_responses(outcomes));
    let f = first_occurrences(all);
    lemma_first_occurrences_unique(all);
    lemma_first_occurrences_cover(all);
    let out = numbered(f);
    assert forall|i: int| 0 <= i < all.len() implies url_seen(out, (#[trigger] all[i]).url@) by {
        lemma_numbered_urls(f, all[i].url@);
    }
    assert forall|i: int| 0 <= i < out.len() implies (#[trigger] out[i]).position == Some(
        (i + 1) as usize,
    ) && exists|k: int|
        0 <= k < all.len() && (SearchResultOutput { position: all[k].position, ..out[i] })
            == #[trigger] all[k] by {
        assert(all.contains(f[i]));
        let k = choose|k: int| 0 <= k < all.len() && all[k] == f[i];
        assert((SearchResultOutput { position: all[k].position, ..out[i] }) == all[k]);
    }
}

/// The results of a list of responses, as a tool gives them, are exactly the results
/// of those responses: each carries the title, link, snippet, engine, date and number
/// of a result of one of them, and each result of each response is among them with all
/// of these.
pub proof fn lemma_all_outputs_fields(responses: Seq<SearchResponse>)
    ensures
        forall|i: int|
            0 <= i < all_outputs(responses).len() ==> exists|j: int, k: int|
                #![trigger responses[j].results@[k]]
                0 <= j < responses.len() && 0 <= k < responses[j].results@.len() && {
                    let o = #[trigger] all_outputs(responses)[i];
                    let x = responses[j].results@[k];
                    &&& o.title == x.title
                    &&& o.url == x.url
                    &&& o.snippet == x.snippet
                    &&& o.engine == x.engine
                    &&& o.published_date == x.published_date
                    &&& o.position == x.position
                },
        forall|j: int, k: int|
            #![trigger responses[j].results@[k]]
            0 <= j < responses.len() && 0 <= k < responses[j].results@.len() ==> exists|i: int|
                0 <= i < all_outputs(responses).len() && {
                    let o = #[trigger] all_outputs(responses)[i];
                    let x = responses[j].results@[k];
                    &&& o.title == x.title
                    &&& o.url == x.url
                    &&& o.snippet == x.snippet
                    &&& o.engine == x.engine
                    &&& o.published_date == x.published_date
                    &&& o.position == x.position
                },
    decreases responses.len(),
{
    if responses.len() > 0 {
        let p = responses.drop_last();
        lemma_all_outputs_fields(p);
        let pre = all_outputs(p);
        let last = responses.last();
        let all = all_outputs(responses);
        assert(all == pre + last.results@.map_values(|x: SearchResult| output_of(x)));
        assert forall|i: int| 0 <= i < all.len() implies exists|j: int, k: int|
            #![trigger responses[j].results@[k]]
            0 <= j < responses.len() && 0 <= k < responses[j].results@.len() && {
                let o = #[trigger] all[i];
                let x = responses[j].results@[k];
                &&& o.title == x.title
                &&& o.url == x.url
                &&& o.snippet == x.snippet
                &&& o.engine == x.engine
                &&& o.published_date == x.published_date
                &&& o.position == x.position
            } by {
            if i < pre.len() {
                assert(all[i] == pre[i]);
                let (j, k) = choose|j: int, k: int|
                    #![trigger p[j].results@[k]]
                    0 <= j < p.len() && 0 <= k < p[j].results@.len() && {
                        let o = #[trigger] pre[i];
                        let x = p[j].results@[k];
                        &&& o.title == x.title
                        &&& o.url == x.url
                        &&& o.snippet == x.snippet
                        &&& o.engine == x.engine
                        &&& o.published_date == x.published_date
                        &&& o.position == x.position
                    };
                assert(p[j] == responses[j]);
                let _ = responses[j].results@[k];
            } else {
                let k = i - pre.len();
                let j = responses.len() - 1;
                assert(all[i] == output_of(last.results@[k]));
                assert(responses[j] == last);
                let _ = responses[j].results@[k];
            }
        }
        assert forall|j: int, k: int|
            #![trigger responses[j].results@[k]]
            0 <= j < responses.len() && 0 <= k < responses[j].results@.len() implies exists|i: int|
                0 <= i < all.len() && {
                    let o = #[trigger] all[i];
                    let x = responses[j].results@[k];
                    &&& o.title == x.title
                    &&& o.url == x.url
                    &&& o.snippet == x.snippet
                    &&& o.engine == x.engine
                    &&& o.published_date == x.published_date
                    &&& o.position == x.position
                } by {
            if j < p.len() {
                assert(p[j] == responses[j]);
                let _ = p[j].results@[k];
                let i = choose|i: int|
                    0 <= i < pre.len() && {
                        let o = #[trigger] pre[i];
                        let x = p[j].results@[k];
                        &&& o.title == x.title
                        &&& o.url == x.url
                        &&& o.snippet == x.snippet
                        &&& o.engine == x.engine
                        &&& o.published_date == x.published_date
                        &&& o.position == x.position
                    };
                assert(all[i] == pre[i]);
            } else {
                assert(responses[j] == last);
                let i = pre.len() + k;
                assert(all[i] == output_of(last.results@[k]));
            }
        }
    }
}

/// Each result a multi-engine search gives, merged or de-duplicated, is a result of
/// one of the successful responses with its title, link, snippet, engine and date
/// unchanged; only its number is new.
pub proof fn lemma_multi_search_fields(outcomes: Seq<Result<SearchResponse, SearchError>>, dedup: bool)
    ensures
        forall|i: int|
            0 <= i < numbered(merged_results(outcomes, dedup)).len() ==> exists|j: int, k: int|
                #![trigger ok_responses(outcomes)[j].results@[k]]
                0 <= j < ok_responses(outcomes).len() && 0 <= k < ok_responses(outcomes)[j].results@.len()
                    && {
                    let o = #[trigger] numbered(merged_results(outcomes, dedup))[i];
                    let x = ok_responses(outcomes)[j].results@[k];
                    &&& o.title == x.title
                    &&& o.url == x.url
                    &&& o.snippet == x.snippet
                    &&& o.engine == x.engine
                    &&& o.published_date == x.published_date
                },
{
    let rs = ok_responses(outcomes);
    let all = all_outputs(rs);
    let out = numbered(merged_results(outcomes, dedup));
    lemma_all_outputs_fields(rs);
    if dedup {
        lemma_multi_search_dedup(outcomes);
    } else {
        lemma_multi_search_keep_all(outcomes);
    }
    assert forall|i: int| 0 <= i < out.len() implies exists|j: int, k: int|
        #![trigger rs[j].results@[k]]
        0 <= j < rs.len() && 0 <= k < rs[j].results@.len() && {
            let o = #[trigger] out[i];
            let x = rs[j].results@[k];
            &&& o.title == x.title
            &&& o.url == x.url
            &&& o.snippet == x.snippet
            &&& o.engine == x.engine
            &&& o.published_date == x.published_date
        } by {
        let m = if dedup {
            choose|m: int|
                0 <= m < all.len() && (SearchResultOutput { position: all[m].position, ..out[i] })
                    == #[trigger] all[m]
        } else {
            i
        };
        assert(0 <= m < all.len());
        assert((SearchResultOutput { position: all[m].position, ..out[i] }) == all[m]);
        let (j, k) = choose|j: int, k: int|
            #![trigger rs[j].results@[k]]
            0 <= j < rs.len() && 0 <= k < rs[j].results@.len() && {
                let o = #[trigger] all[m];
                let x = rs[j].results@[k];
                &&& o.title == x.title
                &&& o.url == x.url
                &&& o.snippet == x.snippet
                &&& o.engine == x.engine
                &&& o.published_date == x.published_date
                &&& o.position == x.position
            };
        let x = rs[j].results@[k];
        assert(out[i].title == x.title && out[i].url == x.url && out[i].snippet == x.snippet
            && out[i].engine == x.engine && out[i].published_date == x.published_date);
    }
}

/// Without de-duplication the merged results are all results of the successful
/// responses, in order, numbered 1, 2, ...
pub proof fn lemma_multi_search_keep_all(outcomes: Seq<Result<SearchResponse, SearchError>>)
    ensures
        numbered(merged_results(outcomes, false)).len() == all_outputs(ok_responses(outcomes)).len(),
        forall|i: int|
            0 <= i < all_outputs(ok_responses(outcomes)).len() ==> #[trigger] numbered(
                merged_results(outcomes, false),
            )[i] == (SearchResultOutput {
                position: Some((i + 1) as usize),
                ..all_outputs(ok_responses(outcomes))[i]
            }),
{
}

} // verus!
