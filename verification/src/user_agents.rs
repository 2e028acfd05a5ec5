//! Browser user-agent strings sent with search requests, picked at random.
use vstd::prelude::*;
use rand::Rng;

verus! {

/// The desktop browser user agents.
pub open spec fn desktop_agents() -> Seq<Seq<char>> {
    seq![
        "Mozilla/5.0 (Windows NT 10.0; Win64; x64) AppleWebKit/537.36 (KHTML, like Gecko) Chrome/131.0.0.0 Safari/537.36"@,
        "Mozilla/5.0 (Macintosh; Intel Mac OS X 14_7_2) AppleWebKit/537.36 (KHTML, like Gecko) Chrome/131.0.0.0 Safari/537.36"@,
        "Mozilla/5.0 (X11; Linux x86_64) AppleWebKit/537.36 (KHTML, like Gecko) Chrome/131.0.0.0 Safari/537.36"@,
        "Mozilla/5.0 (Windows NT 10.0; Win64; x64; rv:133.0) Gecko/20100101 Firefox/133.0"@,
        "Mozilla/5.0 (Macintosh; Intel Mac OS X 14.7; rv:133.0) Gecko/20100101 Firefox/133.0"@,
        "Mozilla/5.0 (X11; Linux x86_64; rv:133.0) Gecko/20100101 Firefox/133.0"@,
        "Mozilla/5.0 (Windows NT 10.0; Win64; x64) AppleWebKit/537.36 (KHTML, like Gecko) Chrome/131.0.0.0 Safari/537.36 Edg/131.0.0.0"@,
    ]
}

/// The mobile browser user agents.
pub open spec fn mobile_agents() -> Seq<Seq<char>> {
    seq![
        "Mozilla/5.0 (iPhone; CPU iPhone OS 18_2 like Mac OS X) AppleWebKit/605.1.15 (KHTML, like Gecko) Version/18.2 Mobile/15E148 Safari/604.1"@,
        "Mozilla/5.0 (Linux; Android 15; Pixel 9) AppleWebKit/537.36 (KHTML, like Gecko) Chrome/131.0.0.0 Mobile Safari/537.36"@,
        "Mozilla/5.0 (Linux; Android 15; SM-S928B) AppleWebKit/537.36 (KHTML, like Gecko) Chrome/131.0.0.0 Mobile Safari/537.36"@,
    ]
}

/// A random index below `n`, from the thread's random number generator
/// (`rand::Rng::gen_range(0..n)` on `rand::thread_rng()`).
#[verifier::external_body]
fn random_index(n: usize) -> (r: usize)
    requires
        n > 0,
    ensures
        r < n,
{
    rand::thread_rng().gen_range(0..n)
}

/// The desktop user agent at position `i`.
fn desktop_agent(i: usize) -> (r: &'static str)
    requires
        i < 7,
    ensures
        r@ == desktop_agents()[i as int],
{
    match i {
        0 => "Mozilla/5.0 (Windows NT 10.0; Win64; x64) AppleWebKit/537.36 (KHTML, like Gecko) Chrome/131.0.0.0 Safari/537.36",
        1 => "Mozilla/5.0 (Macintosh; Intel Mac OS X 14_7_2) AppleWebKit/537.36 (KHTML, like Gecko) Chrome/131.0.0.0 Safari/537.36",
        2 => "Mozilla/5.0 (X11; Linux x86_64) AppleWebKit/537.36 (KHTML, like Gecko) Chrome/131.0.0.0 Safari/537.36",
        3 => "Mozilla/5.0 (Windows NT 10.0; Win64; x64; rv:133.0) Gecko/20100101 Firefox/133.0",
        4 => "Mozilla/5.0 (Macintosh; Intel Mac OS X 14.7; rv:133.0) Gecko/20100101 Firefox/133.0",
        5 => "Mozilla/5.0 (X11; Linux x86_64; rv:133.0) Gecko/20100101 Firefox/133.0",
        _ => "Mozilla/5.0 (Windows NT 10.0; Win64; x64) AppleWebKit/537.36 (KHTML, like Gecko) Chrome/131.0.0.0 Safari/537.36 Edg/131.0.0.0",
    }
}

/// The mobile user agent at position `i`.
fn mobile_agent(i: usize) -> (r: &'static str)
    requires
        i < 3,
    ensures
        r@ == mobile_agents()[i as int],
{
    match i {
        0 => "Mozilla/5.0 (iPhone; CPU iPhone OS 18_2 like Mac OS X) AppleWebKit/605.1.15 (KHTML, like Gecko) Version/18.2 Mobile/15E148 Safari/604.1",
        1 => "Mozilla/5.0 (Linux; Android 15; Pixel 9) AppleWebKit/537.36 (KHTML, like Gecko) Chrome/131.0.0.0 Mobile Safari/537.36",
        _ => "Mozilla/5.0 (Linux; Android 15; SM-S928B) AppleWebKit/537.36 (KHTML, like Gecko) Chrome/131.0.0.0 Mobile Safari/537.36",
    }
}

/// A desktop user agent, chosen at random.
pub fn random_desktop() -> (r: String)
    ensures
        desktop_agents().contains(r@),
{
    let i = random_index(7);
    let r = String::from_str(desktop_agent(i));
    assert(desktop_agents()[i as int] == r@);
    r
}

/// A mobile user agent, chosen at random.
pub fn random_mobile() -> (r: String)
    ensures
        mobile_agents().contains(r@),
{
    let i = random_index(3);
    let r = String::from_str(mobile_agent(i));
    assert(mobile_agents()[i as int] == r@);
    r
}

/// A desktop or mobile user agent, chosen at random among all of them.
pub fn random_any() -> (r: String)
    ensures
        (desktop_agents() + mobile_agents()).contains(r@),
{
    let i = random_index(10);
    let r = if i < 7 {
        String::from_str(desktop_agent(i))
    } else {
        String::from_str(mobile_agent(i - 7))
    };
    assert((desktop_agents() + mobile_agents())[i as int] == r@);
    r
}

} // verus!
