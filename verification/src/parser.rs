//! Reading search results out of an engine's HTML result page, by CSS selectors.
use vstd::prelude::*;
use crate::keyed::NamedMap;
use crate::links::{normalize_url, normalized_url};
use crate::strings::{append_str, trim_string, trimmed};
use crate::types::{copy_opt, opt_view, SelectorConfig};

verus! {

/// The message with which `scraper::Selector::parse` refuses `css`, or `None` when
/// it accepts it.
pub uninterp spec fn selector_error(css: Seq<char>) -> Option<Seq<char>>;

/// `scraper::Selector::parse`, with the refusal given as its message; whether it
/// succeeds, and the message, are named by `selector_error`.
#[verifier::external_body]
fn check_selector(css: &str) -> (r: Option<String>)
    ensures
        opt_view(r) == selector_error(css@),
{
    match scraper::Selector::parse(css) {
        Ok(_) => None,
        Err(e) => Some(e.to_string()),
    }
}

/// How many elements of the page `html` (as `scraper::Html::parse_document` reads it)
/// match the selector `container_css`.
pub uninterp spec fn container_count(html: Seq<char>, container_css: Seq<char>) -> nat;

/// The text (all text nodes inside, joined) of the first element matching `inner_css`
/// within the `k`-th element (from 0, in document order) of page `html` that matches
/// `container_css`; `None` when there is no such element.
pub uninterp spec fn first_text_within(
    html: Seq<char>,
    container_css: Seq<char>,
    k: int,
    inner_css: Seq<char>,
) -> Option<Seq<char>>;

/// The value of attribute `attr` of the first element matching `inner_css` within the
/// `k`-th element (from 0, in document order) of page `html` that matches
/// `container_css`; `None` when there is no such element or it lacks the attribute.
pub uninterp spec fn first_attr_within(
    html: Seq<char>,
    container_css: Seq<char>,
    k: int,
    inner_css: Seq<char>,
    attr: Seq<char>,
) -> Option<Seq<char>>;

/// The value of attribute `attr` of the first element of page `html` that matches
/// `css`; `None` when there is no such element or it lacks the attribute.
pub uninterp spec fn first_attr_in_document(html: Seq<char>, css: Seq<char>, attr: Seq<char>) -> Option<
    Seq<char>,
>;

/// `Html::parse_document(html).select(container).count()`; the result is named by
/// `container_count`.
#[verifier::external_body]
fn count_matches(html: &str, container_css: &str) -> (r: usize)
    requires
        selector_error(container_css@) is None,
    ensures
        r == container_count(html@, container_css@),
{
    let doc = scraper::Html::parse_document(html);
    let outer = scraper::Selector::parse(container_css).unwrap();
    doc.select(&outer).count()
}

/// In `Html::parse_document(html)`, the `k`-th match of `container_css`, then its
/// first descendant matching `inner_css`, then `ElementRef::text` joined; the result
/// is named by `first_text_within`.
#[verifier::external_body]
fn text_within(html: &str, container_css: &str, k: usize, inner_css: &str) -> (r: Option<String>)
    requires
        selector_error(container_css@) is None,
        selector_error(inner_css@) is None,
    ensures
        opt_view(r) == first_text_within(html@, container_css@, k as int, inner_css@),
{
    let doc = scraper::Html::parse_document(html);
    let outer = scraper::Selector::parse(container_css).unwrap();
    let inner = scraper::Selector::parse(inner_css).unwrap();
    let found = match doc.select(&outer).nth(k) {
        Some(el) => el.select(&inner).next(),
        None => None,
    };
    match found {
        Some(e) => Some(e.text().collect::<String>()),
        None => None,
    }
}

/// In `Html::parse_document(html)`, the `k`-th match of `container_css`, then its
/// first descendant matching `inner_css`, then `Element::attr(attr)`; the result is
/// named by `first_attr_within`.
#[verifier::external_body]
fn attr_within(html: &str, container_css: &str, k: usize, inner_css: &str, attr: &str) -> (r: Option<
    String,
>)
    requires
        selector_error(container_css@) is None,
        selector_error(inner_css@) is None,
    ensures
        opt_view(r) == first_attr_within(html@, container_css@, k as int, inner_css@, attr@),
{
    let doc = scraper::Html::parse_document(html);
    let outer = scraper::Selector::parse(container_css).unwrap();
    let inner = scraper::Selector::parse(inner_css).unwrap();
    let found = match doc.select(&outer).nth(k) {
        Some(el) => el.select(&inner).next(),
        None => None,
    };
    match found {
        Some(e) => e.value().attr(attr).map(String::from),
        None => None,
    }
}

/// In `Html::parse_document(html)`, the first match of `css`, then
/// `Element::attr(attr)`; the result is named by `first_attr_in_document`.
#[verifier::external_body]
fn attr_in_document(html: &str, css: &str, attr: &str) -> (r: Option<String>)
    requires
        selector_error(css@) is None,
    ensures
        opt_view(r) == first_attr_in_document(html@, css@, attr@),
{
    let doc = scraper::Html::parse_document(html);
    let sel = scraper::Selector::parse(css).unwrap();
    match doc.select(&sel).next() {
        Some(e) => e.value().attr(attr).map(String::from),
        None => None,
    }
}

/// What can go wrong while reading a result page.
#[derive(Debug, Clone, PartialEq, Eq)]
pub enum ParserError {
    /// A selector (its text) that does not parse, with the reason.
    InvalidSelector(String, String),
    NoResults,
    UrlExtraction(String),
}

pub open spec fn parser_error_message(e: ParserError) -> Seq<char> {
    match e {
        ParserError::InvalidSelector(s, m) => "Invalid selector '"@ + s@ + "': "@ + m@,
        ParserError::NoResults => "No results found"@,
        ParserError::UrlExtraction(m) => "Failed to extract URL: "@ + m@,
    }
}

impl ParserError {
    /// The human-readable text of the error.
    pub fn message(&self) -> (r: String)
        ensures
            r@ == parser_error_message(*self),
    {
        match self {
            ParserError::InvalidSelector(s, m) => {
                let mut r = String::from_str("Invalid selector '");
                append_str(&mut r, s.as_str());
                append_str(&mut r, "': ");
                append_str(&mut r, m.as_str());
                r
            },
            ParserError::NoResults => String::from_str("No results found"),
            ParserError::UrlExtraction(m) => {
                let mut r = String::from_str("Failed to extract URL: ");
                append_str(&mut r, m.as_str());
                r
            },
        }
    }
}

/// One result as read from the page.
#[derive(Debug, Clone, PartialEq, Eq)]
pub struct ParsedResult {
    pub title: String,
    pub url: String,
    pub snippet: String,
    pub published_date: Option<String>,
    pub thumbnail: Option<String>,
}

/// The texts of a parsed result: title, url, snippet, date, thumbnail.
pub type ParsedText = (Seq<char>, Seq<char>, Seq<char>, Option<Seq<char>>, Option<Seq<char>>);

impl ParsedResult {
    pub open spec fn text(&self) -> ParsedText {
        (
            self.title@,
            self.url@,
            self.snippet@,
            opt_view(self.published_date),
            opt_view(self.thumbnail),
        )
    }
}

/// What the selectors found inside one result container, before any clean-up: the
/// text of the title element, the `href` of the link element, the text of the snippet
/// element, the text of the date element and the `src` of the thumbnail element.
#[derive(Debug, Clone, PartialEq, Eq)]
pub struct RawResult {
    pub title: Option<String>,
    pub href: Option<String>,
    pub snippet: Option<String>,
    pub date: Option<String>,
    pub thumbnail: Option<String>,
}

/// The texts of a raw result: title, href, snippet, date, thumbnail.
pub type RawText = (
    Option<Seq<char>>,
    Option<Seq<char>>,
    Option<Seq<char>>,
    Option<Seq<char>>,
    Option<Seq<char>>,
);

impl RawResult {
    pub open spec fn text(&self) -> RawText {
        (
            opt_view(self.title),
            opt_view(self.href),
            opt_view(self.snippet),
            opt_view(self.date),
            opt_view(self.thumbnail),
        )
    }
}

pub open spec fn raw_texts(raws: Seq<RawResult>) -> Seq<RawText> {
    raws.map_values(|r: RawResult| r.text())
}

pub open spec fn parsed_texts(ps: Seq<ParsedResult>) -> Seq<ParsedText> {
    ps.map_values(|p: ParsedResult| p.text())
}

/// Trimmed text, or empty when there is none.
pub open spec fn trimmed_or_empty(t: Option<Seq<char>>) -> Seq<char> {
    match t {
        Some(s) => trimmed(s),
        None => seq![],
    }
}

/// A raw result cleaned up: texts trimmed, the link made absolute against `base_url`.
pub open spec fn cleaned(r: RawText, base_url: Seq<char>) -> ParsedText {
    (
        trimmed_or_empty(r.0),
        match r.1 {
            Some(h) => normalized_url(h, base_url),
            None => seq![],
        },
        trimmed_or_empty(r.2),
        match r.3 {
            Some(d) => Some(trimmed(d)),
            None => None,
        },
        r.4,
    )
}

/// A result is kept when it has a title or a link.
pub open spec fn is_kept(p: ParsedText) -> bool {
    p.0.len() > 0 || p.1.len() > 0
}

/// The cleaned results that have a title or a link, in page order.
pub open spec fn assembled(raws: Seq<RawText>, base_url: Seq<char>) -> Seq<ParsedText>
    decreases raws.len(),
{
    if raws.len() == 0 {
        seq![]
    } else {
        let prev = assembled(raws.drop_last(), base_url);
        let p = cleaned(raws.last(), base_url);
        if is_kept(p) {
            prev.push(p)
        } else {
            prev
        }
    }
}

/// The outcome of reading a page whose containers gave `raws`: the kept results, or
/// `NoResults` when none is kept.
pub open spec fn page_outcome(
    r: Result<Vec<ParsedResult>, ParserError>,
    raws: Seq<RawText>,
    base_url: Seq<char>,
) -> bool {
    match r {
        Ok(v) => parsed_texts(v@) == assembled(raws, base_url) && v@.len() > 0,
        Err(e) => e == ParserError::NoResults && assembled(raws, base_url).len() == 0,
    }
}

fn trimmed_text(t: &Option<String>) -> (r: String)
    ensures
        r@ == trimmed_or_empty(opt_view(*t)),
{
    match t {
        Some(s) => trim_string(s.as_str()),
        None => String::new(),
    }
}

/// Cleans up the raw results of a page: trims the texts, makes links absolute against
/// `base_url`, and keeps those with a title or a link; `NoResults` when none is kept.
pub fn assemble_results(raws: &Vec<RawResult>, base_url: &str) -> (r: Result<
    Vec<ParsedResult>,
    ParserError,
>)
    ensures
        page_outcome(r, raw_texts(raws@), base_url@),
{
    let mut out: Vec<ParsedResult> = Vec::new();
    let ghost rt = raw_texts(raws@);
    for i in 0..raws.len()
        invariant
            rt == raw_texts(raws@),
            parsed_texts(out@) == assembled(rt.take(i as int), base_url@),
    {
        let raw = &raws[i];
        let title = trimmed_text(&raw.title);
        let url = match &raw.href {
            Some(h) => normalize_url(h.as_str(), base_url),
            None => String::new(),
        };
        let snippet = trimmed_text(&raw.snippet);
        let published_date = match &raw.date {
            Some(d) => Some(trim_string(d.as_str())),
            None => None,
        };
        let thumbnail = copy_opt(&raw.thumbnail);
        let p = ParsedResult { title, url, snippet, published_date, thumbnail };
        assert(rt.take(i + 1).drop_last() =~= rt.take(i as int));
        assert(p.text() == cleaned(rt[i as int], base_url@));
        let keep = !p.title.as_str().is_empty() || !p.url.as_str().is_empty();
        if keep {
            out.push(p);
            assert(parsed_texts(out@) =~= assembled(rt.take(i as int), base_url@).push(p.text()));
        }
    }
    assert(rt.take(raws@.len() as int) =~= rt);
    if out.len() == 0 {
        Err(ParserError::NoResults)
    } else {
        Ok(out)
    }
}

/// A selector config whose selectors all parse.
struct CheckedConfig {
    config: SelectorConfig,
}

impl CheckedConfig {
    #[verifier::type_invariant]
    spec fn all_parse(&self) -> bool {
        first_invalid_selector(self.config) is None
    }
}

/// The first selector of a config that does not parse (in the order container, title,
/// link, snippet, then the date, thumbnail and next-page selectors where given), with
/// the reason. The pagination selector is not used and not checked.
pub open spec fn first_invalid_selector(c: SelectorConfig) -> Option<(Seq<char>, Seq<char>)> {
    if selector_error(c.result_container@) is Some {
        Some((c.result_container@, selector_error(c.result_container@).unwrap()))
    } else if selector_error(c.title_selector@) is Some {
        Some((c.title_selector@, selector_error(c.title_selector@).unwrap()))
    } else if selector_error(c.url_selector@) is Some {
        Some((c.url_selector@, selector_error(c.url_selector@).unwrap()))
    } else if selector_error(c.snippet_selector@) is Some {
        Some((c.snippet_selector@, selector_error(c.snippet_selector@).unwrap()))
    } else if c.date_selector is Some && selector_error(c.date_selector.unwrap()@) is Some {
        Some((c.date_selector.unwrap()@, selector_error(c.date_selector.unwrap()@).unwrap()))
    } else if c.thumbnail_selector is Some && selector_error(c.thumbnail_selector.unwrap()@) is Some {
        Some(
            (
                c.thumbnail_selector.unwrap()@,
                selector_error(c.thumbnail_selector.unwrap()@).unwrap(),
            ),
        )
    } else if c.next_page_selector is Some && selector_error(c.next_page_selector.unwrap()@) is Some {
        Some(
            (
                c.next_page_selector.unwrap()@,
                selector_error(c.next_page_selector.unwrap()@).unwrap(),
            ),
        )
    } else {
        None
    }
}

/// The error for a selector that does not parse.
pub open spec fn is_invalid_selector_error(e: ParserError, sel: Seq<char>, msg: Seq<char>) -> bool {
    match e {
        ParserError::InvalidSelector(s, m) => s@ == sel && m@ == msg,
        _ => false,
    }
}

/// The error for the selector `css` when it does not parse.
fn check_required(css: &String) -> (r: Result<(), ParserError>)
    ensures
        r is Ok <==> selector_error(css@) is None,
        r matches Err(e) ==> is_invalid_selector_error(e, css@, selector_error(css@).unwrap()),
{
    match check_selector(css.as_str()) {
        None => Ok(()),
        Some(m) => Err(ParserError::InvalidSelector(css.clone(), m)),
    }
}

/// The error for the selector `css`, where one is given, when it does not parse.
fn check_optional(css: &Option<String>) -> (r: Result<(), ParserError>)
    ensures
        r is Ok <==> (css is None || selector_error(css.unwrap()@) is None),
        r matches Err(e) ==> css is Some && is_invalid_selector_error(
            e,
            css.unwrap()@,
            selector_error(css.unwrap()@).unwrap(),
        ),
{
    match css {
        Some(c) => check_required(c),
        None => Ok(()),
    }
}

/// What the selectors of `c` find in the `k`-th result container of page `html`: the
/// text of the title element, the `url_attr` attribute of the link element, the text
/// of the snippet element, the text of the date element and the `src` of the
/// thumbnail element (the last two only where `c` gives selectors for them).
pub open spec fn raw_at(html: Seq<char>, c: SelectorConfig, url_attr: Seq<char>, k: int) -> RawText {
    let rc = c.result_container@;
    (
        first_text_within(html, rc, k, c.title_selector@),
        first_attr_within(html, rc, k, c.url_selector@, url_attr),
        first_text_within(html, rc, k, c.snippet_selector@),
        match c.date_selector {
            Some(d) => first_text_within(html, rc, k, d@),
            None => None,
        },
        match c.thumbnail_selector {
            Some(t) => first_attr_within(html, rc, k, t@, "src"@),
            None => None,
        },
    )
}

/// What the selectors of `c` find in each result container of page `html`, in page
/// order.
pub open spec fn page_raws(html: Seq<char>, c: SelectorConfig, url_attr: Seq<char>) -> Seq<RawText> {
    Seq::new(container_count(html, c.result_container@), |k: int| raw_at(html, c, url_attr, k))
}

/// The reading of page `html` with config `c`: the kept results, or the message of
/// `NoResults` when none is kept.
pub open spec fn page_parse(html: Seq<char>, c: SelectorConfig, url_attr: Seq<char>, base_url: Seq<char>) -> Result<
    Seq<ParsedText>,
    Seq<char>,
> {
    let a = assembled(page_raws(html, c, url_attr), base_url);
    if a.len() == 0 {
        Err("No results found"@)
    } else {
        Ok(a)
    }
}

/// The texts of a page reading agree with `page_parse`'s account of it.
pub proof fn lemma_page_outcome_text(
    r: Result<Vec<ParsedResult>, ParserError>,
    raws: Seq<RawText>,
    base_url: Seq<char>,
)
    requires
        page_outcome(r, raws, base_url),
    ensures
        match r {
            Ok(v) => assembled(raws, base_url).len() > 0 && parsed_texts(v@) == assembled(raws, base_url),
            Err(e) => assembled(raws, base_url).len() == 0 && parser_error_message(e) == "No results found"@,
        },
{
}

/// The next-page link of page `html` for config `c`: the `href` of the first element
/// matching its next-page selector, when it has one.
pub open spec fn page_next_link(html: Seq<char>, c: SelectorConfig) -> Option<Seq<char>> {
    match c.next_page_selector {
        Some(s) => first_attr_in_document(html, s@, "href"@),
        None => None,
    }
}

/// Result-page readers, by engine name.
pub struct HtmlSearchParser {
    engines: NamedMap<CheckedConfig>,
}

impl HtmlSearchParser {
    /// The selector config registered for each engine name.
    pub closed spec fn view(&self) -> Map<Seq<char>, SelectorConfig> {
        Map::new(
            |k: Seq<char>| self.engines@.contains_key(k),
            |k: Seq<char>| self.engines@[k].config,
        )
    }

    /// A reader with no engine.
    pub fn new() -> (r: Self)
        ensures
            r@ == Map::<Seq<char>, SelectorConfig>::empty(),
    {
        let r = HtmlSearchParser { engines: NamedMap::new() };
        assert(r@ =~= Map::<Seq<char>, SelectorConfig>::empty());
        r
    }

    /// Checks the selectors of `config` and registers them under `engine_name`,
    /// replacing any earlier ones. Fails, changing nothing, on the first selector that
    /// does not parse.
    pub fn register_engine(&mut self, engine_name: &str, config: &SelectorConfig) -> (r: Result<
        (),
        ParserError,
    >)
        ensures
            match first_invalid_selector(*config) {
                Some(bad) => r matches Err(e) && is_invalid_selector_error(e, bad.0, bad.1)
                    && final(self)@ == old(self)@,
                None => r is Ok && final(self)@ == old(self)@.insert(engine_name@, *config),
            },
    {
        if let Err(e) = check_required(&config.result_container) {
            return Err(e);
        }
        if let Err(e) = check_required(&config.title_selector) {
            return Err(e);
        }
        if let Err(e) = check_required(&config.url_selector) {
            return Err(e);
        }
        if let Err(e) = check_required(&config.snippet_selector) {
            return Err(e);
        }
        if let Err(e) = check_optional(&config.date_selector) {
            return Err(e);
        }
        if let Err(e) = check_optional(&config.thumbnail_selector) {
            return Err(e);
        }
        if let Err(e) = check_optional(&config.next_page_selector) {
            return Err(e);
        }
        let checked = CheckedConfig { config: config.duplicate() };
        self.engines.insert(String::from_str(engine_name), checked);
        assert(self@ =~= old(self)@.insert(engine_name@, *config));
        Ok(())
    }

    /// Reads the results of `engine_name`'s page `html`, taking links from their
    /// `href` (see `parse_with_link_attr`).
    pub fn parse(&self, engine_name: &str, html: &str, base_url: &str) -> (r: Result<
        Vec<ParsedResult>,
        ParserError,
    >)
        ensures
            !self@.contains_key(engine_name@) ==> r == Err::<Vec<ParsedResult>, ParserError>(
                ParserError::NoResults,
            ),
            self@.contains_key(engine_name@) ==> page_outcome(
                r,
                page_raws(html@, self@[engine_name@], "href"@),
                base_url@,
            ),
    {
        self.parse_with_link_attr(engine_name, html, base_url, "href")
    }

    /// Reads the results of `engine_name`'s page `html`: for each result container,
    /// the trimmed text of its title, the `url_attr` attribute of its link made
    /// absolute against `base_url`, the trimmed text of its snippet, and its date and
    /// thumbnail where the config gives selectors for them (see `page_raws`);
    /// containers with neither title nor link are left out. `NoResults` for an engine
    /// that is not registered or a page without results.
    pub fn parse_with_link_attr(&self, engine_name: &str, html: &str, base_url: &str, url_attr: &str) -> (r:
        Result<Vec<ParsedResult>, ParserError>)
        ensures
            !self@.contains_key(engine_name@) ==> r == Err::<Vec<ParsedResult>, ParserError>(
                ParserError::NoResults,
            ),
            self@.contains_key(engine_name@) ==> page_outcome(
                r,
                page_raws(html@, self@[engine_name@], url_attr@),
                base_url@,
            ),
    {
        let checked = match self.engines.get(engine_name) {
            Some(s) => s,
            None => {
                return Err(ParserError::NoResults);
            },
        };
        proof {
            use_type_invariant(checked);
        }
        let c = &checked.config;
        let ghost pr = page_raws(html@, *c, url_attr@);
        let rc = c.result_container.as_str();
        let n = count_matches(html, rc);
        let mut raws: Vec<RawResult> = Vec::new();
        for k in 0..n
            invariant
                n == pr.len(),
                pr == page_raws(html@, *c, url_attr@),
                rc@ == c.result_container@,
                first_invalid_selector(*c) is None,
                raw_texts(raws@) == pr.take(k as int),
        {
            let title = text_within(html, rc, k, c.title_selector.as_str());
            let href = attr_within(html, rc, k, c.url_selector.as_str(), url_attr);
            let snippet = text_within(html, rc, k, c.snippet_selector.as_str());
            let date = match &c.date_selector {
                Some(d) => text_within(html, rc, k, d.as_str()),
                None => None,
            };
            let thumbnail = match &c.thumbnail_selector {
                Some(t) => attr_within(html, rc, k, t.as_str(), "src"),
                None => None,
            };
            let raw = RawResult { title, href, snippet, date, thumbnail };
            assert(raw.text() == raw_at(html@, *c, url_attr@, k as int));
            let ghost before = raws@;
            raws.push(raw);
            assert(pr[k as int] == raw_at(html@, *c, url_attr@, k as int));
            assert(raws@ == before.push(raw));
            assert(raw_texts(raws@) =~= raw_texts(before).push(raw.text()));
            assert(raw_texts(raws@) =~= pr.take(k + 1));
        }
        assert(pr.take(n as int) =~= pr);
        assemble_results(&raws, base_url)
    }

    /// The `href` of the first next-page link on `engine_name`'s page `html` (see
    /// `page_next_link`); `None` when the engine is not registered.
    pub fn extract_next_page(&self, engine_name: &str, html: &str) -> (r: Option<String>)
        ensures
            opt_view(r) == if self@.contains_key(engine_name@) {
                page_next_link(html@, self@[engine_name@])
            } else {
                None
            },
    {
        let checked = match self.engines.get(engine_name) {
            Some(s) => s,
            None => {
                return None;
            },
        };
        proof {
            use_type_invariant(checked);
        }
        match &checked.config.next_page_selector {
            Some(sel) => attr_in_document(html, sel.as_str(), "href"),
            None => None,
        }
    }
}

} // verus!
