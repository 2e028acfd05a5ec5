//! The server's configuration decisions: which proxy each engine goes through, which
//! built-in engines it starts with, how cached answers are keyed, and which answer a
//! search on all engines gives.
use vstd::prelude::*;
use crate::error::{MultiSearchResponse, SearchError, SearchResponse};
use crate::keyed::NamedMap;
use crate::strings::{append_str, starts_with_seq, str_equal, str_starts_with};
use crate::types::{opt_str_view, opt_view};

verus! {

/// Proxies for the requests of the engines.
#[derive(Debug)]
pub struct ProxyConfig {
    /// The proxy for plain HTTP requests.
    pub http_proxy: Option<String>,
    /// The proxy for HTTPS requests.
    pub https_proxy: Option<String>,
    /// The proxy for all requests (a SOCKS5 address, as a rule).
    pub socks5_proxy: Option<String>,
    /// The hosts reached without proxy, separated by commas.
    pub no_proxy: Option<String>,
    /// A proxy of its own for some engines, by engine name.
    pub engine_proxies: NamedMap<String>,
}

impl Default for ProxyConfig {
    /// No proxy at all.
    fn default() -> (r: Self)
        ensures
            r.http_proxy is None,
            r.https_proxy is None,
            r.socks5_proxy is None,
            r.no_proxy is None,
            r.engine_proxies@ == Map::<Seq<char>, String>::empty(),
    {
        ProxyConfig {
            http_proxy: None,
            https_proxy: None,
            socks5_proxy: None,
            no_proxy: None,
            engine_proxies: NamedMap::new(),
        }
    }
}

/// The value of the first variable named `name` among `vars`, if any.
pub open spec fn env_value(vars: Seq<(String, String)>, name: Seq<char>) -> Option<Seq<char>> {
    if exists|i: int| 0 <= i < vars.len() && (#[trigger] vars[i]).0@ == name {
        let i = choose|i: int|
            0 <= i < vars.len() && (#[trigger] vars[i]).0@ == name && forall|j: int|
                0 <= j < i ==> vars[j].0@ != name;
        Some(vars[i].1@)
    } else {
        None
    }
}

/// The first of two optional values that is set.
pub open spec fn either(a: Option<Seq<char>>, b: Option<Seq<char>>) -> Option<Seq<char>> {
    match a {
        Some(x) => Some(x),
        None => b,
    }
}

/// The value of the first variable named `name` among `vars`.
fn env_lookup(vars: &Vec<(String, String)>, name: &str) -> (r: Option<String>)
    ensures
        opt_view(r) == env_value(vars@, name@),
{
    let n = vars.len();
    for i in 0..n
        invariant
            n == vars@.len(),
            forall|j: int| 0 <= j < i ==> vars@[j].0@ != name@,
    {
        if str_equal(vars[i].0.as_str(), name) {
            let ghost k = choose|k: int|
                0 <= k < vars@.len() && (#[trigger] vars@[k]).0@ == name@ && forall|j: int|
                    0 <= j < k ==> vars@[j].0@ != name@;
            proof {
                assert(vars@[i as int].0@ == name@);
                if k < i {
                    assert(vars@[k].0@ != name@);
                }
                if i < k {
                    assert(vars@[i as int].0@ != name@);
                }
            }
            return Some(vars[i].1.clone());
        }
    }
    None
}

/// The value of the upper-case variable `upper`, or else of the lower-case `lower`.
fn env_either(vars: &Vec<(String, String)>, upper: &str, lower: &str) -> (r: Option<String>)
    ensures
        opt_view(r) == either(env_value(vars@, upper@), env_value(vars@, lower@)),
{
    match env_lookup(vars, upper) {
        Some(v) => Some(v),
        None => env_lookup(vars, lower),
    }
}

/// How a proxy is put on a client: for all requests, for HTTPS, or for plain HTTP.
#[derive(Debug, Clone, Copy, PartialEq, Eq)]
pub enum ProxyKind {
    All,
    Https,
    Http,
}

/// A proxy of its own for an engine: `socks5://` addresses take all requests,
/// `https://` ones the HTTPS requests, any other the plain HTTP ones.
pub open spec fn kind_of_proxy(url: Seq<char>) -> ProxyKind {
    if starts_with_seq(url, "socks5://"@) {
        ProxyKind::All
    } else if starts_with_seq(url, "https://"@) {
        ProxyKind::Https
    } else {
        ProxyKind::Http
    }
}

/// How the proxy at `url` is put on an engine's own client.
pub fn proxy_kind(url: &str) -> (r: ProxyKind)
    ensures
        r == kind_of_proxy(url@),
{
    if str_starts_with(url, "socks5://") {
        ProxyKind::All
    } else if str_starts_with(url, "https://") {
        ProxyKind::Https
    } else {
        ProxyKind::Http
    }
}

/// The global proxies as they are put on the shared client, in order: the HTTP proxy,
/// the HTTPS proxy, then the all-requests proxy, each where it is set.
pub open spec fn global_proxy_list(c: ProxyConfig) -> Seq<(ProxyKind, Seq<char>)> {
    let http: Seq<(ProxyKind, Seq<char>)> = match c.http_proxy {
        Some(p) => seq![(ProxyKind::Http, p@)],
        None => seq![],
    };
    let https: Seq<(ProxyKind, Seq<char>)> = match c.https_proxy {
        Some(p) => seq![(ProxyKind::Https, p@)],
        None => seq![],
    };
    let all: Seq<(ProxyKind, Seq<char>)> = match c.socks5_proxy {
        Some(p) => seq![(ProxyKind::All, p@)],
        None => seq![],
    };
    http + https + all
}

/// The proxy of an engine: its own where it has one, else the HTTPS proxy, else the
/// HTTP proxy, else the all-requests proxy.
pub open spec fn engine_proxy(c: ProxyConfig, engine: Seq<char>) -> Option<Seq<char>> {
    if c.engine_proxies@.contains_key(engine) {
        Some(c.engine_proxies@[engine]@)
    } else {
        either(either(opt_view(c.https_proxy), opt_view(c.http_proxy)), opt_view(c.socks5_proxy))
    }
}

impl ProxyConfig {
    /// The proxies named by the environment `vars`: `HTTP_PROXY`, `HTTPS_PROXY`,
    /// `ALL_PROXY` and `NO_PROXY`, each also in lower case where the upper-case one is
    /// not set; no engine has a proxy of its own.
    pub fn from_env(vars: &Vec<(String, String)>) -> (r: Self)
        ensures
            opt_view(r.http_proxy) == either(env_value(vars@, "HTTP_PROXY"@), env_value(vars@, "http_proxy"@)),
            opt_view(r.https_proxy) == either(env_value(vars@, "HTTPS_PROXY"@), env_value(vars@, "https_proxy"@)),
            opt_view(r.socks5_proxy) == either(env_value(vars@, "ALL_PROXY"@), env_value(vars@, "all_proxy"@)),
            opt_view(r.no_proxy) == either(env_value(vars@, "NO_PROXY"@), env_value(vars@, "no_proxy"@)),
            r.engine_proxies@ == Map::<Seq<char>, String>::empty(),
    {
        ProxyConfig {
            http_proxy: env_either(vars, "HTTP_PROXY", "http_proxy"),
            https_proxy: env_either(vars, "HTTPS_PROXY", "https_proxy"),
            socks5_proxy: env_either(vars, "ALL_PROXY", "all_proxy"),
            no_proxy: env_either(vars, "NO_PROXY", "no_proxy"),
            engine_proxies: NamedMap::new(),
        }
    }

    /// The proxy for `engine_name` (see `engine_proxy`).
    pub fn proxy_for_engine(&self, engine_name: &str) -> (r: Option<&str>)
        ensures
            opt_str_view(r) == engine_proxy(*self, engine_name@),
    {
        match self.engine_proxies.get(engine_name) {
            Some(p) => {
                return Some(p.as_str());
            },
            None => {},
        }
        match &self.https_proxy {
            Some(p) => Some(p.as_str()),
            None => match &self.http_proxy {
                Some(p) => Some(p.as_str()),
                None => match &self.socks5_proxy {
                    Some(p) => Some(p.as_str()),
                    None => None,
                },
            },
        }
    }

    /// The global proxies in the order they are put on the shared client (see
    /// `global_proxy_list`).
    pub fn global_proxies(&self) -> (r: Vec<(ProxyKind, String)>)
        ensures
            r@.map_values(|p: (ProxyKind, String)| (p.0, p.1@)) == global_proxy_list(*self),
    {
        let mut r: Vec<(ProxyKind, String)> = Vec::new();
        let ghost s0 = r@;
        match &self.http_proxy {
            Some(p) => r.push((ProxyKind::Http, p.clone())),
            None => {},
        }
        let ghost s1 = r@;
        match &self.https_proxy {
            Some(p) => r.push((ProxyKind::Https, p.clone())),
            None => {},
        }
        let ghost s2 = r@;
        match &self.socks5_proxy {
            Some(p) => r.push((ProxyKind::All, p.clone())),
            None => {},
        }
        assert(r@.map_values(|p: (ProxyKind, String)| (p.0, p.1@)) =~= global_proxy_list(*self));
        r
    }
}

/// The built-in engines a server starts with, in order.
pub open spec fn builtin_engines() -> Seq<Seq<char>> {
    seq!["google"@, "duckduckgo"@, "bing"@, "brave"@, "youtube"@, "yahoo"@]
}

/// The names of the built-in engines a server starts with.
pub fn builtin_engine_names() -> (r: Vec<&'static str>)
    ensures
        r@.map_values(|s: &str| s@) == builtin_engines(),
{
    let r = vec!["google", "duckduckgo", "bing", "brave", "youtube", "yahoo"];
    assert(r@.map_values(|s: &str| s@) =~= builtin_engines());
    r
}

/// The key of a cached answer: the query, the engine (`multi` for all engines) and
/// the options as JSON, separated by colons.
pub open spec fn cache_key_text(query: Seq<char>, engine: Option<Seq<char>>, options_json: Seq<char>) -> Seq<char> {
    query + ":"@ + match engine {
        Some(e) => e,
        None => "multi"@,
    } + ":"@ + options_json
}

/// The key under which the answer to a search is cached.
pub fn cache_key(query: &str, engine: Option<&str>, options_json: &str) -> (r: String)
    ensures
        r@ == cache_key_text(query@, opt_str_view(engine), options_json@),
{
    let mut k = String::from_str(query);
    append_str(&mut k, ":");
    match engine {
        Some(e) => append_str(&mut k, e),
        None => append_str(&mut k, "multi"),
    }
    append_str(&mut k, ":");
    append_str(&mut k, options_json);
    k
}

/// The answer a search on all engines gives: the first response, or no results for
/// `query` when no engine answered.
pub fn first_response(query: &str, multi: MultiSearchResponse) -> (r: Result<SearchResponse, SearchError>)
    ensures
        multi.responses@.len() == 0 ==> (r matches Err(SearchError::NoResults { query: q }) && q@
            == query@),
        multi.responses@.len() > 0 ==> r == Ok::<SearchResponse, SearchError>(multi.responses@[0]),
{
    let mut responses = multi.responses;
    if responses.len() == 0 {
        Err(SearchError::NoResults { query: String::from_str(query) })
    } else {
        Ok(responses.remove(0))
    }
}

} // verus!
