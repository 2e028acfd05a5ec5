//! The set of engines a server searches with: lookup by name, and the merge of the
//! answers of all engines.
use vstd::prelude::*;
use crate::engines::SearchEngine;
use crate::error::{MultiSearchResponse, SearchError, SearchResponse};
use crate::registry::WebEngine;
use crate::strings::str_equal;

verus! {

/// The engines' names, in order.
pub open spec fn names_of(engines: Seq<WebEngine>) -> Seq<Seq<char>> {
    engines.map_values(|e: WebEngine| e.spec_name())
}

/// The successful responses among `outcomes`, in order.
pub open spec fn ok_responses(outcomes: Seq<Result<SearchResponse, SearchError>>) -> Seq<SearchResponse>
    decreases outcomes.len(),
{
    if outcomes.len() == 0 {
        seq![]
    } else {
        let rest = ok_responses(outcomes.drop_last());
        match outcomes.last() {
            Ok(r) => rest.push(r),
            Err(_) => rest,
        }
    }
}

/// The number of results over all `responses`.
pub open spec fn results_total(responses: Seq<SearchResponse>) -> nat
    decreases responses.len(),
{
    if responses.len() == 0 {
        0
    } else {
        results_total(responses.drop_last()) + responses.last().results@.len()
    }
}

/// A prefix of the responses has no more results than all of them.
pub proof fn lemma_results_total_prefix(responses: Seq<SearchResponse>, i: int)
    requires
        0 <= i <= responses.len(),
    ensures
        results_total(responses.take(i)) <= results_total(responses),
    decreases responses.len() - i,
{
    if i < responses.len() {
        lemma_results_total_prefix(responses, i + 1);
        assert(responses.take(i + 1).drop_last() =~= responses.take(i));
    } else {
        assert(responses.take(i) =~= responses);
    }
}

/// The engines a search can go to, in the order they were added.
pub struct SearchAggregator {
    engines: Vec<WebEngine>,
}

impl SearchAggregator {
    pub closed spec fn engines(&self) -> Seq<WebEngine> {
        self.engines@
    }

    /// The names of the engines, in the order they were added.
    pub open spec fn names(&self) -> Seq<Seq<char>> {
        names_of(self.engines())
    }

    /// An aggregator without engines.
    pub fn new() -> (r: Self)
        ensures
            r.engines() == Seq::<WebEngine>::empty(),
    {
        SearchAggregator { engines: Vec::new() }
    }

    /// Adds an engine after the others.
    pub fn add_engine(&mut self, engine: WebEngine)
        ensures
            final(self).engines() == old(self).engines().push(engine),
    {
        self.engines.push(engine);
    }

    /// The number of engines.
    pub fn engine_count(&self) -> (r: usize)
        ensures
            r == self.engines().len(),
    {
        self.engines.len()
    }

    /// The `i`-th engine.
    pub fn engine_at(&self, i: usize) -> (r: &WebEngine)
        requires
            i < self.engines().len(),
        ensures
            *r == self.engines()[i as int],
    {
        &self.engines[i]
    }

    /// The names of the engines, in the order they were added.
    pub fn engine_names(&self) -> (r: Vec<&str>)
        ensures
            r@.map_values(|s: &str| s@) == self.names(),
    {
        let mut r: Vec<&str> = Vec::new();
        for i in 0..self.engines.len()
            invariant
                r@.len() == i,
                forall|j: int| 0 <= j < i ==> (#[trigger] r@[j])@ == self.engines@[j].spec_name(),
        {
            r.push(self.engines[i].name());
        }
        assert(r@.map_values(|s: &str| s@) =~= self.names());
        r
    }

    /// The position of the first engine named `engine_name`; an unavailable-engine
    /// error, "Engine not found", when no engine has that name.
    pub fn find_engine(&self, engine_name: &str) -> (r: Result<usize, SearchError>)
        ensures
            match r {
                Ok(i) => i < self.engines().len() && self.names()[i as int] == engine_name@
                    && forall|j: int| 0 <= j < i ==> self.names()[j] != engine_name@,
                Err(err) => err matches SearchError::EngineUnavailable { engine, reason } && engine@
                    == engine_name@ && reason@ == "Engine not found"@,
            },
            r is Ok <==> self.names().contains(engine_name@),
    {
        let n = self.engines.len();
        for i in 0..n
            invariant
                n == self.engines@.len(),
                forall|j: int| 0 <= j < i ==> self.names()[j] != engine_name@,
        {
            if str_equal(self.engines[i].name(), engine_name) {
                assert(self.names()[i as int] == engine_name@);
                return Ok(i);
            }
        }
        proof {
            if self.names().contains(engine_name@) {
                let k = choose|k: int| 0 <= k < self.names().len() && self.names()[k] == engine_name@;
                assert(self.names()[k] != engine_name@);
            }
        }
        Err(
            SearchError::EngineUnavailable {
                engine: String::from_str(engine_name),
                reason: String::from_str("Engine not found"),
            },
        )
    }

    /// The answer of a search on all engines, from what each engine gave: the
    /// successful responses in order, with the number of their results; the failures
    /// are left out.
    pub fn merge_outcomes(
        query: &str,
        outcomes: Vec<Result<SearchResponse, SearchError>>,
        elapsed_ms: u64,
    ) -> (r: MultiSearchResponse)
        requires
            results_total(ok_responses(outcomes@)) <= usize::MAX,
        ensures
            r.query@ == query@,
            r.responses@ == ok_responses(outcomes@),
            r.total_results == results_total(ok_responses(outcomes@)),
            r.search_time_ms == elapsed_ms,
    {
        let ghost all = outcomes@;
        let mut rest = outcomes;
        let mut responses: Vec<SearchResponse> = Vec::new();
        let mut total: usize = 0;
        let n = rest.len();
        let mut i: usize = 0;
        while i < n
            invariant
                n == all.len(),
                i <= n,
                rest@ == all.subrange(i as int, n as int),
                responses@ == ok_responses(all.take(i as int)),
                total == results_total(responses@),
                results_total(ok_responses(all)) <= usize::MAX,
            decreases n - i,
        {
            let o = rest.remove(0);
            assert(all.take(i + 1).drop_last() =~= all.take(i as int));
            assert(all.take(i + 1).last() == o);
            match o {
                Ok(resp) => {
                    proof {
                        let done = ok_responses(all.take(i + 1));
                        assert(done == responses@.push(resp));
                        assert(done.drop_last() =~= responses@);
                        lemma_ok_responses_prefix(all, i + 1);
                        lemma_results_total_prefix(ok_responses(all), done.len() as int);
                        assert(ok_responses(all).take(done.len() as int) =~= done);
                    }
                    total = total + resp.results.len();
                    responses.push(resp);
                },
                Err(_) => {},
            }
            assert(rest@ =~= all.subrange(i + 1, n as int));
            i = i + 1;
        }
        assert(all.take(n as int) =~= all);
        MultiSearchResponse {
            query: String::from_str(query),
            responses,
            total_results: total,
            search_time_ms: elapsed_ms,
        }
    }
}

/// The successful responses of a prefix of the outcomes are a prefix of those of all
/// outcomes.
pub proof fn lemma_ok_responses_prefix(outcomes: Seq<Result<SearchResponse, SearchError>>, i: int)
    requires
        0 <= i <= outcomes.len(),
    ensures
        ok_responses(outcomes.take(i)).len() <= ok_responses(outcomes).len(),
        ok_responses(outcomes).take(ok_responses(outcomes.take(i)).len() as int) == ok_responses(
            outcomes.take(i),
        ),
    decreases outcomes.len() - i,
{
    if i < outcomes.len() {
        lemma_ok_responses_prefix(outcomes, i + 1);
        let a = ok_responses(outcomes.take(i));
        let b = ok_responses(outcomes.take(i + 1));
        assert(outcomes.take(i + 1).drop_last() =~= outcomes.take(i));
        let all = ok_responses(outcomes);
        assert(b.take(a.len() as int) =~= a);
        assert(all.take(a.len() as int) =~= b.take(a.len() as int));
    } else {
        assert(outcomes.take(i) =~= outcomes);
        assert(ok_responses(outcomes).take(ok_responses(outcomes).len() as int) =~= ok_responses(
            outcomes,
        ));
    }
}

/// An engine just added is found by its name: the lookup by that name succeeds, and it
/// gives the added engine unless an earlier engine has the same name.
pub proof fn lemma_added_engine_found(engines: Seq<WebEngine>, e: WebEngine)
    ensures
        names_of(engines.push(e)).contains(e.spec_name()),
        !names_of(engines).contains(e.spec_name()) ==> names_of(engines.push(e))[engines.len() as int]
            == e.spec_name() && forall|j: int|
            0 <= j < engines.len() ==> names_of(engines.push(e))[j] != e.spec_name(),
{
    let n = names_of(engines.push(e));
    assert(n[engines.len() as int] == e.spec_name());
    if !names_of(engines).contains(e.spec_name()) {
        assert forall|j: int| 0 <= j < engines.len() implies n[j] != e.spec_name() by {
            assert(n[j] == names_of(engines)[j]);
        }
    }
}

/// The merged answer counts every result of every successful response: adding one
/// more outcome adds the number of its results when it succeeded, and nothing when it
/// failed.
pub proof fn lemma_merge_counts_step(
    outcomes: Seq<Result<SearchResponse, SearchError>>,
    o: Result<SearchResponse, SearchError>,
)
    ensures
        results_total(ok_responses(outcomes.push(o))) == results_total(ok_responses(outcomes)) + match o {
            Ok(r) => r.results@.len(),
            Err(_) => 0,
        },
{
    assert(outcomes.push(o).drop_last() =~= outcomes);
    match o {
        Ok(r) => {
            assert(ok_responses(outcomes.push(o)).drop_last() =~= ok_responses(outcomes));
        },
        Err(_) => {},
    }
}

} // verus!
