//! Counters of the searches a server made: per engine and over all engines. Every
//! counter wraps around on overflow, as an atomic counter does.
use vstd::prelude::*;
use crate::aggregator::ok_responses;
use crate::error::{SearchError, SearchResponse};
use crate::keyed::NamedMap;

verus! {

/// What one engine has done.
#[derive(Debug, Clone, Copy, PartialEq, Eq)]
pub struct EngineAnalytics {
    pub total_searches: i64,
    pub total_latency_ms: u64,
    pub total_results: i64,
    pub errors: i64,
}

/// The counters of an engine that has done nothing yet.
pub open spec fn idle() -> EngineAnalytics {
    EngineAnalytics { total_searches: 0, total_latency_ms: 0, total_results: 0, errors: 0 }
}

/// The counters of an engine after one more search that took `latency_ms` and gave
/// `results` results.
pub open spec fn after_search(a: EngineAnalytics, latency_ms: u64, results: usize) -> EngineAnalytics {
    EngineAnalytics {
        total_searches: a.total_searches.wrapping_add(1),
        total_latency_ms: a.total_latency_ms.wrapping_add(latency_ms),
        total_results: a.total_results.wrapping_add(results as i64),
        errors: a.errors,
    }
}

/// The counters of an engine after one more failed search.
pub open spec fn after_error(a: EngineAnalytics) -> EngineAnalytics {
    EngineAnalytics { errors: a.errors.wrapping_add(1), ..a }
}

/// The counters of `engine` in `m`, idle when it has none.
pub open spec fn counters_of(m: Map<Seq<char>, EngineAnalytics>, engine: Seq<char>) -> EngineAnalytics {
    if m.contains_key(engine) {
        m[engine]
    } else {
        idle()
    }
}

/// The latencies of the engines named in `names`, added up with wrap-around.
pub open spec fn latency_sum(names: Seq<Seq<char>>, m: Map<Seq<char>, EngineAnalytics>) -> u64
    decreases names.len(),
{
    if names.len() == 0 {
        0
    } else {
        latency_sum(names.drop_last(), m).wrapping_add(m[names.last()].total_latency_ms)
    }
}

/// The searches of the engines named in `names`, added up with wrap-around.
pub open spec fn searches_sum(names: Seq<Seq<char>>, m: Map<Seq<char>, EngineAnalytics>) -> i64
    decreases names.len(),
{
    if names.len() == 0 {
        0
    } else {
        searches_sum(names.drop_last(), m).wrapping_add(m[names.last()].total_searches)
    }
}

/// The totals over all engines at one moment.
#[derive(Debug, Clone, PartialEq, Eq)]
pub struct AnalyticsTotals {
    pub total_searches: i64,
    pub total_results: i64,
    /// The engines that searched or failed, in the order they first did.
    pub engines_used: Vec<String>,
    pub cache_hits: i64,
    pub cache_misses: i64,
    pub deduped_results: i64,
    /// The latencies of all engines, added up.
    pub total_latency_ms: u64,
    /// The searches of all engines, added up.
    pub engine_searches: i64,
}

/// The counters of a server, as values: the counters of each engine that searched or
/// failed, those engines in the order they first did, and the totals.
pub struct AnalyticsState {
    pub engines: Map<Seq<char>, EngineAnalytics>,
    pub order: Seq<Seq<char>>,
    pub total_searches: i64,
    pub total_results: i64,
    pub cache_hits: i64,
    pub cache_misses: i64,
    pub deduped_results: i64,
}

impl AnalyticsState {
    /// Every engine with counters is in the order, once, and every engine in the
    /// order has counters.
    pub open spec fn consistent(self) -> bool {
        &&& self.order.no_duplicates()
        &&& forall|k: Seq<char>| #[trigger] self.engines.contains_key(k) <==> self.order.contains(k)
    }

    /// `engine` last in the order if it is not there yet.
    pub open spec fn order_with(self, engine: Seq<char>) -> Seq<Seq<char>> {
        if self.order.contains(engine) {
            self.order
        } else {
            self.order.push(engine)
        }
    }

    /// After a search of `engine` that took `latency_ms` and gave `results` results.
    pub open spec fn searched(self, engine: Seq<char>, latency_ms: u64, results: usize) -> AnalyticsState {
        AnalyticsState {
            engines: self.engines.insert(
                engine,
                after_search(counters_of(self.engines, engine), latency_ms, results),
            ),
            order: self.order_with(engine),
            total_searches: self.total_searches.wrapping_add(1),
            total_results: self.total_results.wrapping_add(results as i64),
            ..self
        }
    }

    /// After a failed search of `engine`.
    pub open spec fn failed(self, engine: Seq<char>) -> AnalyticsState {
        AnalyticsState {
            engines: self.engines.insert(engine, after_error(counters_of(self.engines, engine))),
            order: self.order_with(engine),
            ..self
        }
    }

    /// After each of `responses` was counted as a search of its engine, in order.
    pub open spec fn searched_all(self, responses: Seq<SearchResponse>) -> AnalyticsState
        decreases responses.len(),
    {
        if responses.len() == 0 {
            self
        } else {
            let r = responses.last();
            self.searched_all(responses.drop_last()).searched(
                r.engine@,
                r.search_time_ms,
                r.results@.len() as usize,
            )
        }
    }
}

/// One counting call on the counters of a server.
pub enum AnalyticsEvent {
    /// A search of an engine, with its latency and its number of results.
    Search(Seq<char>, u64, usize),
    /// A failed search of an engine.
    Error(Seq<char>),
    CacheHit,
    CacheMiss,
    /// Results removed as duplicates.
    Dedup(i64),
}

impl AnalyticsState {
    /// No engine, every counter at zero.
    pub open spec fn initial() -> AnalyticsState {
        AnalyticsState {
            engines: Map::empty(),
            order: seq![],
            total_searches: 0,
            total_results: 0,
            cache_hits: 0,
            cache_misses: 0,
            deduped_results: 0,
        }
    }

    /// After one counting call.
    pub open spec fn after(self, ev: AnalyticsEvent) -> AnalyticsState {
        match ev {
            AnalyticsEvent::Search(e, l, r) => self.searched(e, l, r),
            AnalyticsEvent::Error(e) => self.failed(e),
            AnalyticsEvent::CacheHit => AnalyticsState {
                cache_hits: self.cache_hits.wrapping_add(1),
                ..self
            },
            AnalyticsEvent::CacheMiss => AnalyticsState {
                cache_misses: self.cache_misses.wrapping_add(1),
                ..self
            },
            AnalyticsEvent::Dedup(c) => AnalyticsState {
                deduped_results: self.deduped_results.wrapping_add(c),
                ..self
            },
        }
    }

    /// After each of `events`, in order.
    pub open spec fn replay(self, events: Seq<AnalyticsEvent>) -> AnalyticsState
        decreases events.len(),
    {
        if events.len() == 0 {
            self
        } else {
            self.replay(events.drop_last()).after(events.last())
        }
    }
}

/// The number of searches among `events`.
pub open spec fn searches_in(events: Seq<AnalyticsEvent>) -> nat
    decreases events.len(),
{
    if events.len() == 0 {
        0
    } else {
        searches_in(events.drop_last()) + if events.last() is Search {
            1nat
        } else {
            0nat
        }
    }
}

/// The results of the searches among `events`, added up.
pub open spec fn results_in(events: Seq<AnalyticsEvent>) -> nat
    decreases events.len(),
{
    if events.len() == 0 {
        0
    } else {
        results_in(events.drop_last()) + match events.last() {
            AnalyticsEvent::Search(_, _, r) => r as nat,
            _ => 0nat,
        }
    }
}

/// The number of cache hits among `events`.
pub open spec fn hits_in(events: Seq<AnalyticsEvent>) -> nat
    decreases events.len(),
{
    if events.len() == 0 {
        0
    } else {
        hits_in(events.drop_last()) + if events.last() is CacheHit {
            1nat
        } else {
            0nat
        }
    }
}

/// The number of cache misses among `events`.
pub open spec fn misses_in(events: Seq<AnalyticsEvent>) -> nat
    decreases events.len(),
{
    if events.len() == 0 {
        0
    } else {
        misses_in(events.drop_last()) + if events.last() is CacheMiss {
            1nat
        } else {
            0nat
        }
    }
}

/// The duplicates counted among `events`, added up.
pub open spec fn dedup_in(events: Seq<AnalyticsEvent>) -> int
    decreases events.len(),
{
    if events.len() == 0 {
        0
    } else {
        dedup_in(events.drop_last()) + match events.last() {
            AnalyticsEvent::Dedup(c) => c as int,
            _ => 0,
        }
    }
}

/// Whether `ev` is a search or a failed search of `engine`.
pub open spec fn names_engine(ev: AnalyticsEvent, engine: Seq<char>) -> bool {
    match ev {
        AnalyticsEvent::Search(e, _, _) => e == engine,
        AnalyticsEvent::Error(e) => e == engine,
        _ => false,
    }
}

/// Every counting call keeps the counters consistent, and puts the engine it names
/// (if any) in the order, which otherwise stays the same.
pub proof fn lemma_after_consistent(s: AnalyticsState, ev: AnalyticsEvent)
    requires
        s.consistent(),
    ensures
        s.after(ev).consistent(),
        forall|n: Seq<char>|
            #[trigger] s.after(ev).order.contains(n) <==> (s.order.contains(n) || names_engine(ev, n)),
{
    match ev {
        AnalyticsEvent::Search(e, l, r) => lemma_order_with(s, e),
        AnalyticsEvent::Error(e) => lemma_order_with(s, e),
        _ => {},
    }
}

proof fn lemma_order_with(s: AnalyticsState, e: Seq<char>)
    requires
        s.consistent(),
    ensures
        s.order_with(e).no_duplicates(),
        forall|n: Seq<char>| #[trigger] s.order_with(e).contains(n) <==> (s.order.contains(n) || n == e),
{
    if !s.order.contains(e) {
        let o = s.order.push(e);
        assert forall|i: int, j: int| 0 <= i < o.len() && 0 <= j < o.len() && i != j implies o[i]
            != o[j] by {
            if i == s.order.len() as int {
                assert(s.order.contains(o[j]));
            } else if j == s.order.len() as int {
                assert(s.order.contains(o[i]));
            }
        }
        assert forall|n: Seq<char>| #[trigger] o.contains(n) <==> (s.order.contains(n) || n == e) by {
            if o.contains(n) && n != e {
                let i = choose|i: int| 0 <= i < o.len() && o[i] == n;
                assert(i < s.order.len());
                assert(s.order[i] == n);
            }
            if s.order.contains(n) {
                let i = choose|i: int| 0 <= i < s.order.len() && s.order[i] == n;
                assert(o[i] == n);
            }
            if n == e {
                assert(o[s.order.len() as int] == e);
            }
        }
    }
}

/// `SearchAnalytics::new` gives `AnalyticsState::initial()` and each `record_*` call
/// applies `after` with its event, so a server's counters after any sequence of calls
/// are `AnalyticsState::initial().replay(events)`, and `totals` reads them.
///
/// From no counts, a sequence of counting calls gives: as many searches as search
/// calls, their results added up, as many cache hits and misses as such calls, the
/// duplicates added up, and as engines used exactly those named by the search and
/// error calls, each once; as long as no counter wraps around.
pub proof fn lemma_replay_totals(events: Seq<AnalyticsEvent>)
    requires
        searches_in(events) <= i64::MAX,
        results_in(events) <= i64::MAX,
        hits_in(events) <= i64::MAX,
        misses_in(events) <= i64::MAX,
        forall|i: int| 0 <= i < events.len() ==> (#[trigger] events[i] matches AnalyticsEvent::Dedup(c) ==> c >= 0),
        dedup_in(events) <= i64::MAX,
    ensures
        ({
            let s = AnalyticsState::initial().replay(events);
            &&& s.total_searches == searches_in(events)
            &&& s.total_results == results_in(events)
            &&& s.cache_hits == hits_in(events)
            &&& s.cache_misses == misses_in(events)
            &&& s.deduped_results == dedup_in(events)
            &&& s.consistent()
            &&& forall|n: Seq<char>|
                #[trigger] s.order.contains(n) <==> exists|i: int|
                    0 <= i < events.len() && names_engine(#[trigger] events[i], n)
        }),
    decreases events.len(),
{
    let init = AnalyticsState::initial();
    if events.len() == 0 {
        assert(init.consistent());
    } else {
        let p = events.drop_last();
        assert forall|i: int| 0 <= i < p.len() implies (#[trigger] p[i] matches AnalyticsEvent::Dedup(c) ==> c >= 0) by {
            assert(p[i] == events[i]);
        }
        lemma_dedup_nonneg(p);
        lemma_replay_totals(p);
        let sp = init.replay(p);
        let ev = events.last();
        lemma_after_consistent(sp, ev);
        let s = init.replay(events);
        assert forall|n: Seq<char>| #[trigger] s.order.contains(n) <==> exists|i: int|
            0 <= i < events.len() && names_engine(#[trigger] events[i], n) by {
            if s.order.contains(n) {
                if sp.order.contains(n) {
                    let i = choose|i: int| 0 <= i < p.len() && names_engine(#[trigger] p[i], n);
                    assert(events[i] == p[i]);
                } else {
                    assert(names_engine(events[events.len() - 1], n));
                }
            }
            if exists|i: int| 0 <= i < events.len() && names_engine(#[trigger] events[i], n) {
                let i = choose|i: int| 0 <= i < events.len() && names_engine(#[trigger] events[i], n);
                if i < p.len() {
                    assert(p[i] == events[i]);
                }
            }
        }
        match ev {
            AnalyticsEvent::Search(e, l, r) => {
                assert(r <= i64::MAX);
            },
            _ => {},
        }
    }
}

/// The duplicates of a prefix with no negative count are no more than in total.
proof fn lemma_dedup_nonneg(events: Seq<AnalyticsEvent>)
    requires
        forall|i: int| 0 <= i < events.len() ==> (#[trigger] events[i] matches AnalyticsEvent::Dedup(c) ==> c >= 0),
    ensures
        dedup_in(events) >= 0,
    decreases events.len(),
{
    if events.len() > 0 {
        let p = events.drop_last();
        assert forall|i: int| 0 <= i < p.len() implies (#[trigger] p[i] matches AnalyticsEvent::Dedup(c) ==> c >= 0) by {
            assert(p[i] == events[i]);
        }
        lemma_dedup_nonneg(p);
        assert(events[events.len() - 1] == events.last());
    }
}

/// Sums over the same engines agree where the engines' latencies and searches agree.
proof fn lemma_sums_agree(
    names: Seq<Seq<char>>,
    m1: Map<Seq<char>, EngineAnalytics>,
    m2: Map<Seq<char>, EngineAnalytics>,
)
    requires
        forall|i: int|
            0 <= i < names.len() ==> m1[#[trigger] names[i]].total_latency_ms
                == m2[names[i]].total_latency_ms && m1[names[i]].total_searches
                == m2[names[i]].total_searches,
    ensures
        latency_sum(names, m1) == latency_sum(names, m2),
        searches_sum(names, m1) == searches_sum(names, m2),
    decreases names.len(),
{
    if names.len() > 0 {
        let p = names.drop_last();
        assert forall|i: int| 0 <= i < p.len() implies m1[#[trigger] p[i]].total_latency_ms
            == m2[p[i]].total_latency_ms && m1[p[i]].total_searches == m2[p[i]].total_searches by {
            assert(p[i] == names[i]);
        }
        lemma_sums_agree(p, m1, m2);
        assert(names.last() == names[names.len() - 1]);
    }
}

/// A failed search of an engine that already has counters adds one to its errors
/// and changes nothing else: not its latency, searches or results, not the other
/// engines, not the order of the engines, not the totals and not their sums.
pub proof fn lemma_error_changes_only_errors(s: AnalyticsState, engine: Seq<char>)
    requires
        s.consistent(),
        s.order.contains(engine),
    ensures
        ({
            let t = s.failed(engine);
            &&& t.order == s.order
            &&& t.total_searches == s.total_searches
            &&& t.total_results == s.total_results
            &&& t.cache_hits == s.cache_hits
            &&& t.cache_misses == s.cache_misses
            &&& t.deduped_results == s.deduped_results
            &&& t.engines[engine] == (EngineAnalytics {
                errors: s.engines[engine].errors.wrapping_add(1),
                ..s.engines[engine]
            })
            &&& forall|k: Seq<char>| k != engine ==> #[trigger] t.engines.contains_key(k) == s.engines.contains_key(k)
                && (s.engines.contains_key(k) ==> t.engines[k] == s.engines[k])
            &&& latency_sum(t.order, t.engines) == latency_sum(s.order, s.engines)
            &&& searches_sum(t.order, t.engines) == searches_sum(s.order, s.engines)
        }),
{
    let t = s.failed(engine);
    assert(s.engines.contains_key(engine));
    lemma_sums_agree(s.order, t.engines, s.engines);
}

/// The counters of a server.
pub struct SearchAnalytics {
    engines: NamedMap<EngineAnalytics>,
    total_searches: i64,
    total_results: i64,
    cache_hits: i64,
    cache_misses: i64,
    deduped_results: i64,
}

impl View for SearchAnalytics {
    type V = AnalyticsState;

    closed spec fn view(&self) -> AnalyticsState {
        AnalyticsState {
            engines: self.engines@,
            order: self.engines.names(),
            total_searches: self.total_searches,
            total_results: self.total_results,
            cache_hits: self.cache_hits,
            cache_misses: self.cache_misses,
            deduped_results: self.deduped_results,
        }
    }
}

impl SearchAnalytics {
    /// The counters kept always agree with the order of the engines.
    fn show_consistent(&self)
        ensures
            self@.consistent(),
    {
        self.engines.shape();
        assert forall|k: Seq<char>| #[trigger] self@.engines.contains_key(k) <==> self@.order.contains(k) by {}
    }

    /// All counters at zero, no engine.
    pub fn new() -> (r: Self)
        ensures
            r@ == AnalyticsState::initial(),
            r@.consistent(),
            r@ == (AnalyticsState {
                engines: Map::empty(),
                order: seq![],
                total_searches: 0,
                total_results: 0,
                cache_hits: 0,
                cache_misses: 0,
                deduped_results: 0,
            }),
    {
        let r = SearchAnalytics {
            engines: NamedMap::new(),
            total_searches: 0,
            total_results: 0,
            cache_hits: 0,
            cache_misses: 0,
            deduped_results: 0,
        };
        r.show_consistent();
        r
    }

    /// The counters of `engine`, idle when it has none.
    fn current(&self, engine: &str) -> (r: EngineAnalytics)
        ensures
            r == counters_of(self@.engines, engine@),
    {
        match self.engines.get(engine) {
            Some(a) => *a,
            None => EngineAnalytics {
                total_searches: 0,
                total_latency_ms: 0,
                total_results: 0,
                errors: 0,
            },
        }
    }

    /// Counts a search of `engine` that took `latency_ms` and gave `results` results.
    pub fn record_search(&mut self, engine: &str, latency_ms: u64, results: usize)
        ensures
            final(self)@ == old(self)@.after(AnalyticsEvent::Search(engine@, latency_ms, results)),
            final(self)@.consistent(),
            final(self)@ == old(self)@.searched(engine@, latency_ms, results),
    {
        self.total_searches = self.total_searches.wrapping_add(1);
        self.total_results = self.total_results.wrapping_add(results as i64);
        let a = self.current(engine);
        let b = EngineAnalytics {
            total_searches: a.total_searches.wrapping_add(1),
            total_latency_ms: a.total_latency_ms.wrapping_add(latency_ms),
            total_results: a.total_results.wrapping_add(results as i64),
            errors: a.errors,
        };
        self.engines.insert(String::from_str(engine), b);
        self.show_consistent();
    }

    /// Counts a failed search of `engine`.
    pub fn record_error(&mut self, engine: &str)
        ensures
            final(self)@ == old(self)@.after(AnalyticsEvent::Error(engine@)),
            final(self)@.consistent(),
            final(self)@ == old(self)@.failed(engine@),
    {
        let a = self.current(engine);
        let b = EngineAnalytics { errors: a.errors.wrapping_add(1), ..a };
        self.engines.insert(String::from_str(engine), b);
        self.show_consistent();
    }

    /// Counts an answer found in the cache.
    pub fn record_cache_hit(&mut self)
        ensures
            final(self)@ == old(self)@.after(AnalyticsEvent::CacheHit),
            final(self)@.consistent(),
            final(self)@ == (AnalyticsState {
                cache_hits: old(self)@.cache_hits.wrapping_add(1),
                ..old(self)@
            }),
    {
        self.cache_hits = self.cache_hits.wrapping_add(1);
        self.show_consistent();
    }

    /// Counts an answer not found in the cache.
    pub fn record_cache_miss(&mut self)
        ensures
            final(self)@ == old(self)@.after(AnalyticsEvent::CacheMiss),
            final(self)@.consistent(),
            final(self)@ == (AnalyticsState {
                cache_misses: old(self)@.cache_misses.wrapping_add(1),
                ..old(self)@
            }),
    {
        self.cache_misses = self.cache_misses.wrapping_add(1);
        self.show_consistent();
    }

    /// Counts `count` results removed as duplicates.
    pub fn record_dedup(&mut self, count: i64)
        ensures
            final(self)@ == old(self)@.after(AnalyticsEvent::Dedup(count)),
            final(self)@.consistent(),
            final(self)@ == (AnalyticsState {
                deduped_results: old(self)@.deduped_results.wrapping_add(count),
                ..old(self)@
            }),
    {
        self.deduped_results = self.deduped_results.wrapping_add(count);
        self.show_consistent();
    }

    /// Counts each successful response among `outcomes` as a search of its engine, in
    /// order.
    pub fn record_responses(&mut self, outcomes: &Vec<Result<SearchResponse, SearchError>>)
        ensures
            final(self)@.consistent(),
            final(self)@ == old(self)@.searched_all(ok_responses(outcomes@)),
    {
        let ghost start = self@;
        let n = outcomes.len();
        for i in 0..n
            invariant
                n == outcomes@.len(),
                self@ == start.searched_all(ok_responses(outcomes@.take(i as int))),
        {
            assert(outcomes@.take(i + 1).drop_last() =~= outcomes@.take(i as int));
            match &outcomes[i] {
                Ok(resp) => {
                    let ghost done = ok_responses(outcomes@.take(i + 1));
                    assert(done == ok_responses(outcomes@.take(i as int)).push(*resp));
                    assert(done.drop_last() =~= ok_responses(outcomes@.take(i as int)));
                    self.record_search(resp.engine.as_str(), resp.search_time_ms, resp.results.len());
                },
                Err(_) => {},
            }
        }
        assert(outcomes@.take(n as int) =~= outcomes@);
        self.show_consistent();
    }

    /// The counters of `engine`, when it searched or failed.
    pub fn engine_counts(&self, engine: &str) -> (r: Option<EngineAnalytics>)
        ensures
            self@.consistent(),
            match r {
                Some(a) => self@.engines.contains_key(engine@) && a == self@.engines[engine@],
                None => !self@.engines.contains_key(engine@),
            },
    {
        self.show_consistent();
        match self.engines.get(engine) {
            Some(a) => Some(*a),
            None => None,
        }
    }

    /// The totals over all engines (see `AnalyticsTotals`).
    pub fn totals(&self) -> (r: AnalyticsTotals)
        ensures
            self@.consistent(),
            r.total_searches == self@.total_searches,
            r.total_results == self@.total_results,
            r.cache_hits == self@.cache_hits,
            r.cache_misses == self@.cache_misses,
            r.deduped_results == self@.deduped_results,
            r.engines_used@.map_values(|s: String| s@) == self@.order,
            r.total_latency_ms == latency_sum(self@.order, self@.engines),
            r.engine_searches == searches_sum(self@.order, self@.engines),
    {
        self.show_consistent();
        self.engines.shape();
        let n = self.engines.len();
        let mut names: Vec<String> = Vec::new();
        let mut latency: u64 = 0;
        let mut searches: i64 = 0;
        for i in 0..n
            invariant
                n == self@.order.len(),
                names@.len() == i,
                forall|j: int| 0 <= j < i ==> (#[trigger] names@[j])@ == self@.order[j],
                latency == latency_sum(self@.order.take(i as int), self@.engines),
                searches == searches_sum(self@.order.take(i as int), self@.engines),
                self.engines.names() == self@.order,
                self.engines@ == self@.engines,
                self.engines.names().len() == self.engines.values().len(),
                forall|j: int|
                    0 <= j < self.engines.names().len() ==> self.engines@[#[trigger] self.engines.names()[j]]
                        == self.engines.values()[j],
        {
            let name = self.engines.name_at(i);
            let a = self.engines.value_at(i);
            let ghost order = self@.order;
            assert(order.take(i + 1).drop_last() =~= order.take(i as int));
            assert(order.take(i + 1).last() == order[i as int]);
            assert(*a == self@.engines[order[i as int]]);
            latency = latency.wrapping_add(a.total_latency_ms);
            searches = searches.wrapping_add(a.total_searches);
            names.push(String::from_str(name));
        }
        assert(self@.order.take(n as int) =~= self@.order);
        assert(names@.map_values(|s: String| s@) =~= self@.order);
        AnalyticsTotals {
            total_searches: self.total_searches,
            total_results: self.total_results,
            engines_used: names,
            cache_hits: self.cache_hits,
            cache_misses: self.cache_misses,
            deduped_results: self.deduped_results,
            total_latency_ms: latency,
            engine_searches: searches,
        }
    }
}

/// Counting the successful responses of a search adds one search per response and
/// their results to the totals, as long as the totals do not wrap around.
pub proof fn lemma_searched_all_totals(state: AnalyticsState, responses: Seq<SearchResponse>)
    requires
        0 <= state.total_searches,
        state.total_searches + responses.len() <= i64::MAX,
        0 <= state.total_results,
        state.total_results + results_count(responses) <= i64::MAX,
    ensures
        state.searched_all(responses).total_searches == state.total_searches + responses.len(),
        state.searched_all(responses).total_results == state.total_results + results_count(responses),
        state.searched_all(responses).cache_hits == state.cache_hits,
        state.searched_all(responses).cache_misses == state.cache_misses,
        state.searched_all(responses).deduped_results == state.deduped_results,
    decreases responses.len(),
{
    if responses.len() > 0 {
        let p = responses.drop_last();
        lemma_results_count_prefix(responses);
        lemma_searched_all_totals(state, p);
        let last = responses.last();
        assert((last.results@.len() as usize) as i64 == last.results@.len()) by {
            assert(last.results@.len() <= i64::MAX);
            assert(last.results.len() == last.results@.len());
        }
    }
}

/// The number of results over all `responses`.
pub open spec fn results_count(responses: Seq<SearchResponse>) -> nat
    decreases responses.len(),
{
    if responses.len() == 0 {
        0
    } else {
        results_count(responses.drop_last()) + responses.last().results@.len()
    }
}

proof fn lemma_results_count_prefix(responses: Seq<SearchResponse>)
    requires
        responses.len() > 0,
    ensures
        results_count(responses.drop_last()) + responses.last().results@.len() == results_count(responses),
{
}

/// A search counted for an engine adds one to its searches, its latency to its
/// latency and its results to its results, while its errors stay; the other engines'
/// counters do not change.
pub proof fn lemma_searched_engine(state: AnalyticsState, engine: Seq<char>, latency_ms: u64, results: usize, other: Seq<char>)
    requires
        counters_of(state.engines, engine).total_searches < i64::MAX,
    ensures
        state.searched(engine, latency_ms, results).engines.contains_key(engine),
        state.searched(engine, latency_ms, results).engines[engine].total_searches == counters_of(
            state.engines,
            engine,
        ).total_searches + 1,
        state.searched(engine, latency_ms, results).engines[engine].errors == counters_of(
            state.engines,
            engine,
        ).errors,
        state.searched(engine, latency_ms, results).order.contains(engine),
        other != engine ==> counters_of(state.searched(engine, latency_ms, results).engines, other)
            == counters_of(state.engines, other),
{
    let o = state.order_with(engine);
    if !state.order.contains(engine) {
        assert(o[state.order.len() as int] == engine);
    }
}

} // verus!
