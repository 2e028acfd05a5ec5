//! Named sets of result-page selectors, with the built-in set for the known engines.
use vstd::prelude::*;
use crate::keyed::NamedMap;
use crate::types::SelectorConfig;

verus! {

/// Selector configs by engine name.
pub struct SelectorSet {
    configs: NamedMap<SelectorConfig>,
}

/// The built-in config for Google result pages.
pub open spec fn is_google_selectors(c: SelectorConfig) -> bool {
    c.holds(
        "https://www.google.com/search?q={query}&hl={lang}"@,
        "div.g"@,
        "h3"@,
        "a"@,
        "div.VwiC3b, span.aCOpRe"@,
        Some("span.LEwnzc, span.MUxGbd"@),
        None,
        None,
        Some("a#pnnext"@),
    )
}

/// The built-in config for DuckDuckGo result pages.
pub open spec fn is_duckduckgo_selectors(c: SelectorConfig) -> bool {
    c.holds(
        "https://html.duckduckgo.com/html/?q={query}"@,
        "div.result"@,
        "a.result__a"@,
        "a.result__a"@,
        "a.result__snippet"@,
        None,
        None,
        None,
        Some("input[value='Next']"@),
    )
}

/// The built-in config for Bing result pages.
pub open spec fn is_bing_selectors(c: SelectorConfig) -> bool {
    c.holds(
        "https://www.bing.com/search?q={query}&setlang={lang}"@,
        "li.b_algo"@,
        "h2 a"@,
        "h2 a"@,
        "div.b_caption p"@,
        None,
        None,
        None,
        Some("a.sb_pagN"@),
    )
}

/// The config that the selector set keeps for Brave result pages.
pub open spec fn is_brave_set_selectors(c: SelectorConfig) -> bool {
    c.holds(
        "https://search.brave.com/search?q={query}"@,
        "div.snippet"@,
        "div.title a"@,
        "div.title a"@,
        "div.description"@,
        Some("time"@),
        Some("img.snippet-thumbnail"@),
        None,
        Some("a.next"@),
    )
}

/// The built-in config for YouTube result pages.
pub open spec fn is_youtube_selectors(c: SelectorConfig) -> bool {
    c.holds(
        "https://www.youtube.com/results?search_query={query}"@,
        "div#contents ytd-video-renderer"@,
        "a#video-title"@,
        "a#video-title"@,
        "div#description-text"@,
        Some("span.ytd-video-meta-block"@),
        Some("img#img"@),
        None,
        None,
    )
}

/// The config that the selector set keeps for Yahoo result pages.
pub open spec fn is_yahoo_set_selectors(c: SelectorConfig) -> bool {
    c.holds(
        "https://search.yahoo.com/search?p={query}"@,
        "div.algo"@,
        "h3.title a"@,
        "h3.title a"@,
        "div.compText p"@,
        None,
        None,
        None,
        Some("a.next"@),
    )
}

/// The built-in Google config.
pub fn google_selectors() -> (r: SelectorConfig)
    ensures
        is_google_selectors(r),
{
    SelectorConfig::build(
        "https://www.google.com/search?q={query}&hl={lang}",
        "div.g",
        "h3",
        "a",
        "div.VwiC3b, span.aCOpRe",
        Some("span.LEwnzc, span.MUxGbd"),
        None,
        None,
        Some("a#pnnext"),
    )
}

/// The built-in DuckDuckGo config.
pub fn duckduckgo_selectors() -> (r: SelectorConfig)
    ensures
        is_duckduckgo_selectors(r),
{
    SelectorConfig::build(
        "https://html.duckduckgo.com/html/?q={query}",
        "div.result",
        "a.result__a",
        "a.result__a",
        "a.result__snippet",
        None,
        None,
        None,
        Some("input[value='Next']"),
    )
}

/// The built-in Bing config.
pub fn bing_selectors() -> (r: SelectorConfig)
    ensures
        is_bing_selectors(r),
{
    SelectorConfig::build(
        "https://www.bing.com/search?q={query}&setlang={lang}",
        "li.b_algo",
        "h2 a",
        "h2 a",
        "div.b_caption p",
        None,
        None,
        None,
        Some("a.sb_pagN"),
    )
}

/// The built-in YouTube config.
pub fn youtube_selectors() -> (r: SelectorConfig)
    ensures
        is_youtube_selectors(r),
{
    SelectorConfig::build(
        "https://www.youtube.com/results?search_query={query}",
        "div#contents ytd-video-renderer",
        "a#video-title",
        "a#video-title",
        "div#description-text",
        Some("span.ytd-video-meta-block"),
        Some("img#img"),
        None,
        None,
    )
}

/// The configs listed in `entries`, a later entry replacing an earlier one of the
/// same name.
pub open spec fn entries_map(entries: Seq<(String, SelectorConfig)>) -> Map<Seq<char>, SelectorConfig>
    decreases entries.len(),
{
    if entries.len() == 0 {
        Map::empty()
    } else {
        entries_map(entries.drop_last()).insert(entries.last().0@, entries.last().1)
    }
}

/// One more registration is one more entry: `SelectorSet::new` gives the map of no
/// entries and each `register` call inserts as `entries_map` of one more entry does,
/// so a set after any sequence of registrations has the map `entries_map` of them.
pub proof fn lemma_registration_step(entries: Seq<(String, SelectorConfig)>, name: String, config: SelectorConfig)
    ensures
        entries_map(seq![]) == Map::<Seq<char>, SelectorConfig>::empty(),
        entries_map(entries.push((name, config))) == entries_map(entries).insert(name@, config),
{
    assert(entries.push((name, config)).drop_last() =~= entries);
}

/// Registering the `entries` one after the other gives a set whose names are those of
/// the entries, and whose config for each name is that of the last entry with that
/// name; `engine_names` then lists each of those names once.
pub proof fn lemma_registrations(entries: Seq<(String, SelectorConfig)>)
    ensures
        forall|n: Seq<char>|
            #[trigger] entries_map(entries).contains_key(n) <==> exists|j: int|
                0 <= j < entries.len() && (#[trigger] entries[j]).0@ == n,
        forall|j: int|
            0 <= j < entries.len() && (forall|j2: int|
                j < j2 < entries.len() ==> (#[trigger] entries[j2]).0@ != entries[j].0@)
                ==> entries_map(entries)[(#[trigger] entries[j]).0@] == entries[j].1,
    decreases entries.len(),
{
    if entries.len() > 0 {
        let p = entries.drop_last();
        lemma_registrations(p);
        let last = entries.last();
        assert forall|n: Seq<char>|
            #[trigger] entries_map(entries).contains_key(n) <==> exists|j: int|
                0 <= j < entries.len() && (#[trigger] entries[j]).0@ == n by {
            assert(entries_map(entries) == entries_map(p).insert(last.0@, last.1));
            if entries_map(entries).contains_key(n) && n != last.0@ {
                assert(entries_map(p).contains_key(n));
                let j = choose|j: int| 0 <= j < p.len() && (#[trigger] p[j]).0@ == n;
                assert(entries[j] == p[j]);
            }
            if n == last.0@ {
                assert(entries[entries.len() - 1].0@ == n);
            }
            if exists|j: int| 0 <= j < entries.len() && (#[trigger] entries[j]).0@ == n {
                let j = choose|j: int| 0 <= j < entries.len() && (#[trigger] entries[j]).0@ == n;
                if j < p.len() {
                    assert(p[j] == entries[j]);
                }
            }
        }
        assert forall|j: int|
            0 <= j < entries.len() && (forall|j2: int|
                j < j2 < entries.len() ==> (#[trigger] entries[j2]).0@ != entries[j].0@)
                implies entries_map(entries)[(#[trigger] entries[j]).0@] == entries[j].1 by {
            if j < p.len() {
                assert(entries[entries.len() - 1] == last);
                assert(p[j] == entries[j]);
                assert forall|j2: int| j < j2 < p.len() implies (#[trigger] p[j2]).0@ != p[j].0@ by {
                    assert(p[j2] == entries[j2]);
                }
            }
        }
    }
}

/// After a config is registered under a name, the set gives that config for the name
/// and the same configs as before for every other name.
pub proof fn lemma_register_then_get(
    before: Map<Seq<char>, SelectorConfig>,
    name: Seq<char>,
    config: SelectorConfig,
    other: Seq<char>,
)
    ensures
        before.insert(name, config).contains_key(name),
        before.insert(name, config)[name] == config,
        other != name ==> (before.insert(name, config).contains_key(other) == before.contains_key(other)),
        other != name && before.contains_key(other) ==> before.insert(name, config)[other] == before[other],
{
}

impl SelectorSet {
    /// The config of each engine name.
    pub closed spec fn view(&self) -> Map<Seq<char>, SelectorConfig> {
        self.configs@
    }

    /// The engine names, in the order they were registered.
    pub closed spec fn names(&self) -> Seq<Seq<char>> {
        self.configs.names()
    }

    /// An empty set.
    pub fn new() -> (r: Self)
        ensures
            r@ == Map::<Seq<char>, SelectorConfig>::empty(),
            r.names() == Seq::<Seq<char>>::empty(),
    {
        SelectorSet { configs: NamedMap::new() }
    }

    /// The set of the configs listed in `entries` (as read from a JSON object of
    /// engine names), a later entry replacing an earlier one of the same name.
    pub fn from_entries(entries: Vec<(String, SelectorConfig)>) -> (r: Self)
        ensures
            r@ == entries_map(entries@),
    {
        let ghost all = entries@;
        let mut rest = entries;
        let mut set = SelectorSet::new();
        let n = rest.len();
        let mut i: usize = 0;
        while i < n
            invariant
                n == all.len(),
                i <= n,
                rest@ == all.subrange(i as int, n as int),
                set@ == entries_map(all.take(i as int)),
            decreases n - i,
        {
            let (name, config) = rest.remove(0);
            assert(all.take(i + 1).drop_last() =~= all.take(i as int));
            assert(all.take(i + 1).last() == (name, config));
            set.register(name, config);
            assert(rest@ =~= all.subrange(i + 1, n as int));
            i = i + 1;
        }
        assert(all.take(n as int) =~= all);
        set
    }

    /// Sets the config of `name`, replacing any earlier one.
    pub fn register(&mut self, name: String, config: SelectorConfig)
        ensures
            final(self)@ == old(self)@.insert(name@, config),
            old(self).names().contains(name@) ==> final(self).names() == old(self).names(),
            !old(self).names().contains(name@) ==> final(self).names() == old(self).names().push(
                name@,
            ),
    {
        self.configs.insert(name, config);
    }

    /// The config of `name`, if one is registered.
    pub fn get(&self, name: &str) -> (r: Option<&SelectorConfig>)
        ensures
            match r {
                Some(c) => self@.contains_key(name@) && *c == self@[name@],
                None => !self@.contains_key(name@),
            },
    {
        self.configs.get(name)
    }

    /// The registered names, each once, in the order they were registered.
    pub fn engine_names(&self) -> (r: Vec<&str>)
        ensures
            r@.len() == self.names().len(),
            forall|i: int| 0 <= i < r@.len() ==> #[trigger] r@[i]@ == self.names()[i],
            self.names().no_duplicates(),
            forall|k: Seq<char>| self@.contains_key(k) <==> self.names().contains(k),
    {
        self.configs.shape();
        let mut r: Vec<&str> = Vec::new();
        let n = self.configs.len();
        for i in 0..n
            invariant
                n == self.names().len(),
                r@.len() == i,
                forall|j: int| 0 <= j < i ==> #[trigger] r@[j]@ == self.names()[j],
        {
            r.push(self.configs.name_at(i));
        }
        r
    }
}

impl Default for SelectorSet {
    /// The configs of the built-in engines, registered in the order Google, DuckDuckGo,
    /// Bing, Brave, YouTube, Yahoo.
    fn default() -> (r: Self)
        ensures
            r.names() == seq![
                "google"@,
                "duckduckgo"@,
                "bing"@,
                "brave"@,
                "youtube"@,
                "yahoo"@,
            ],
            is_google_selectors(r@["google"@]),
            is_duckduckgo_selectors(r@["duckduckgo"@]),
            is_bing_selectors(r@["bing"@]),
            is_brave_set_selectors(r@["brave"@]),
            is_youtube_selectors(r@["youtube"@]),
            is_yahoo_set_selectors(r@["yahoo"@]),
    {
        proof {
            reveal_strlit("google");
            reveal_strlit("duckduckgo");
            reveal_strlit("bing");
            reveal_strlit("brave");
            reveal_strlit("youtube");
            reveal_strlit("yahoo");
        }
        let mut set = SelectorSet::new();
        set.register(String::from_str("google"), google_selectors());
        assert(!set.names().contains("duckduckgo"@)) by {
            assert(set.names() =~= seq!["google"@]);
            assert("google"@ != "duckduckgo"@) by { assert("google"@.len() != "duckduckgo"@.len() || "google"@[0] != "duckduckgo"@[0] || "google"@[1] != "duckduckgo"@[1]); }
        }
        set.register(String::from_str("duckduckgo"), duckduckgo_selectors());
        assert(!set.names().contains("bing"@)) by {
            assert(set.names() =~= seq!["google"@, "duckduckgo"@]);
            assert("google"@ != "bing"@) by { assert("google"@.len() != "bing"@.len() || "google"@[0] != "bing"@[0] || "google"@[1] != "bing"@[1]); }
            assert("duckduckgo"@ != "bing"@) by { assert("duckduckgo"@.len() != "bing"@.len() || "duckduckgo"@[0] != "bing"@[0] || "duckduckgo"@[1] != "bing"@[1]); }
        }
        set.register(String::from_str("bing"), bing_selectors());
        assert(!set.names().contains("brave"@)) by {
            assert(set.names() =~= seq!["google"@, "duckduckgo"@, "bing"@]);
            assert("google"@ != "brave"@) by { assert("google"@.len() != "brave"@.len() || "google"@[0] != "brave"@[0] || "google"@[1] != "brave"@[1]); }
            assert("duckduckgo"@ != "brave"@) by { assert("duckduckgo"@.len() != "brave"@.len() || "duckduckgo"@[0] != "brave"@[0] || "duckduckgo"@[1] != "brave"@[1]); }
            assert("bing"@ != "brave"@) by { assert("bing"@.len() != "brave"@.len() || "bing"@[0] != "brave"@[0] || "bing"@[1] != "brave"@[1]); }
        }
        set.register(
            String::from_str("brave"),
            SelectorConfig::build(
                "https://search.brave.com/search?q={query}",
                "div.snippet",
                "div.title a",
                "div.title a",
                "div.description",
                Some("time"),
                Some("img.snippet-thumbnail"),
                None,
                Some("a.next"),
            ),
        );
        assert(!set.names().contains("youtube"@)) by {
            assert(set.names() =~= seq!["google"@, "duckduckgo"@, "bing"@, "brave"@]);
            assert("google"@ != "youtube"@) by { assert("google"@.len() != "youtube"@.len() || "google"@[0] != "youtube"@[0] || "google"@[1] != "youtube"@[1]); }
            assert("duckduckgo"@ != "youtube"@) by { assert("duckduckgo"@.len() != "youtube"@.len() || "duckduckgo"@[0] != "youtube"@[0] || "duckduckgo"@[1] != "youtube"@[1]); }
            assert("bing"@ != "youtube"@) by { assert("bing"@.len() != "youtube"@.len() || "bing"@[0] != "youtube"@[0] || "bing"@[1] != "youtube"@[1]); }
            assert("brave"@ != "youtube"@) by { assert("brave"@.len() != "youtube"@.len() || "brave"@[0] != "youtube"@[0] || "brave"@[1] != "youtube"@[1]); }
        }
        set.register(String::from_str("youtube"), youtube_selectors());
        assert(!set.names().contains("yahoo"@)) by {
            assert(set.names() =~= seq!["google"@, "duckduckgo"@, "bing"@, "brave"@, "youtube"@]);
            assert("google"@ != "yahoo"@) by { assert("google"@.len() != "yahoo"@.len() || "google"@[0] != "yahoo"@[0] || "google"@[1] != "yahoo"@[1]); }
            assert("duckduckgo"@ != "yahoo"@) by { assert("duckduckgo"@.len() != "yahoo"@.len() || "duckduckgo"@[0] != "yahoo"@[0] || "duckduckgo"@[1] != "yahoo"@[1]); }
            assert("bing"@ != "yahoo"@) by { assert("bing"@.len() != "yahoo"@.len() || "bing"@[0] != "yahoo"@[0] || "bing"@[1] != "yahoo"@[1]); }
            assert("brave"@ != "yahoo"@) by { assert("brave"@.len() != "yahoo"@.len() || "brave"@[0] != "yahoo"@[0] || "brave"@[1] != "yahoo"@[1]); }
            assert("youtube"@ != "yahoo"@) by { assert("youtube"@.len() != "yahoo"@.len() || "youtube"@[0] != "yahoo"@[0] || "youtube"@[1] != "yahoo"@[1]); }
        }
        set.register(
            String::from_str("yahoo"),
            SelectorConfig::build(
                "https://search.yahoo.com/search?p={query}",
                "div.algo",
                "h3.title a",
                "h3.title a",
                "div.compText p",
                None,
                None,
                None,
                Some("a.next"),
            ),
        );
        set
    }
}

} // verus!
