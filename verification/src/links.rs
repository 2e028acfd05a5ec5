//! Turning the `href` of a search result into the address it leads to: search
//! engine redirect links are decoded, relative links resolved against the engine.
use vstd::prelude::*;
use vstd::utf8::*;
use crate::codec::{
    base64_url_safe_decode, base64_url_safe_decoded, base64_url_safe_no_pad_decode,
    base64_url_safe_no_pad_decoded, lower_cased, percent_decoded, to_lower, to_upper,
    upper_cased, url_decode, url_join, url_joined, utf8_string,
};
use crate::strings::{
    append_str, chars_of, contains_seq, matches_at, find_first, find_from, first_match, first_match_from,
    lemma_first_match_from_bounds, starts_with_chars, starts_with_seq, str_contains,
    str_starts_with, string_from_range,
};

verus! {

/// `s` starts with `http://` or `https://`.
pub open spec fn is_web_address(s: Seq<char>) -> bool {
    starts_with_seq(s, "http://"@) || starts_with_seq(s, "https://"@)
}

/// Bytes that hold the UTF-8 text of a web address, read as that address.
pub open spec fn web_address_of(bytes: Option<Seq<u8>>) -> Option<Seq<char>> {
    match bytes {
        Some(b) => if valid_utf8(b) && is_web_address(decode_utf8(b)) {
            Some(decode_utf8(b))
        } else {
            None
        },
        None => None,
    }
}

/// `c` with `=` padding up to a multiple of four bytes, as Bing links leave it out.
pub open spec fn base64_padded(c: Seq<char>) -> Seq<char> {
    let n = encode_utf8(c).len() % 4;
    if n == 2 {
        c + "=="@
    } else if n == 3 {
        c + "="@
    } else {
        c
    }
}

/// The address that one candidate encoding of a Bing `u` parameter decodes to:
/// first read without padding, then with padding restored.
pub open spec fn bing_candidate_target(c: Seq<char>) -> Option<Seq<char>> {
    if c.len() == 0 {
        None
    } else {
        match web_address_of(base64_url_safe_no_pad_decoded(c)) {
            Some(u) => Some(u),
            None => web_address_of(base64_url_safe_decoded(base64_padded(c))),
        }
    }
}

/// `s` without `prefix` when it starts with it, and empty otherwise.
pub open spec fn rest_after_prefix(s: Seq<char>, prefix: Seq<char>) -> Seq<char> {
    if starts_with_seq(s, prefix) {
        s.subrange(prefix.len() as int, s.len() as int)
    } else {
        seq![]
    }
}

/// The value of the `u` parameter of a Bing link: from the first `&u=` (in any case)
/// to the next `&` or the end. `None` without such a parameter, or where lower-casing
/// `url` moved that span past its end.
pub open spec fn bing_u_value(url: Seq<char>) -> Option<Seq<char>> {
    let lower = lower_cased(url);
    match first_match(lower, "&u="@) {
        None => None,
        Some(p) => {
            let start = p + 3;
            let end = match first_match_from(lower, "&"@, start) {
                Some(q) => q,
                None => url.len() as int,
            };
            if start <= end && end <= url.len() {
                Some(url.subrange(start, end))
            } else {
                None
            }
        },
    }
}

/// The address a Bing click-tracking link (`bing.com/ck/a?...&u=a1<base64>`) leads to.
/// The `u` value is tried as it is, without `a1`, and without `a`, each as URL-safe
/// Base64 of a `http://` or `https://` address.
pub open spec fn bing_redirect_target(url: Seq<char>) -> Option<Seq<char>> {
    if !contains_seq(url, "bing.com/ck/a"@) {
        None
    } else {
        match bing_u_value(url) {
            None => None,
            Some(e) => match bing_candidate_target(e) {
                Some(t) => Some(t),
                None => match bing_candidate_target(rest_after_prefix(e, "a1"@)) {
                    Some(t) => Some(t),
                    None => bing_candidate_target(rest_after_prefix(e, "a"@)),
                },
            },
        }
    }
}

/// A char that ends the `RU` parameter of a Yahoo link.
pub open spec fn is_ru_delimiter(c: char) -> bool {
    c == '/' || c == '&' || c == ';'
}

/// The first position at or after `i` that holds a delimiter.
pub open spec fn first_ru_delimiter_from(s: Seq<char>, i: int) -> Option<int>
    decreases s.len() - i,
{
    if i < 0 || i >= s.len() {
        None
    } else if is_ru_delimiter(s[i]) {
        Some(i)
    } else {
        first_ru_delimiter_from(s, i + 1)
    }
}

/// The address a Yahoo redirect link (`...search.yahoo.com/...RU=<percent-encoded>/RK=...`)
/// leads to: the `RU=` value (found in any case) up to the next `/`, `&` or `;`,
/// percent-decoded, when it is a `http://` or `https://` address.
pub open spec fn yahoo_redirect_target(url: Seq<char>) -> Option<Seq<char>> {
    if !contains_seq(url, "r.search.yahoo.com"@) && !contains_seq(url, "search.yahoo.com"@) {
        None
    } else {
        match first_match(upper_cased(url), "RU="@) {
            None => None,
            Some(p) => {
                let start = p + 3;
                if start > url.len() {
                    None
                } else {
                    let end = match first_ru_delimiter_from(url, start) {
                        Some(q) => q,
                        None => url.len() as int,
                    };
                    let bytes = percent_decoded(encode_utf8(url.subrange(start, end)));
                    if valid_utf8(bytes) && is_web_address(decode_utf8(bytes)) {
                        Some(decode_utf8(bytes))
                    } else {
                        None
                    }
                }
            },
        }
    }
}

/// The absolute address for a result link `href` found on a page of `base_url`.
pub open spec fn normalized_url(href: Seq<char>, base_url: Seq<char>) -> Seq<char> {
    match bing_redirect_target(href) {
        Some(t) => t,
        None => match yahoo_redirect_target(href) {
            Some(t) => t,
            None => if is_web_address(href) {
                href
            } else if starts_with_seq(href, "//"@) {
                "https:"@ + href
            } else {
                match url_joined(base_url, href) {
                    Some(j) => j,
                    None => href,
                }
            },
        },
    }
}

/// Whether `s` is a `http://` or `https://` address.
fn is_web_address_exec(s: &str) -> (b: bool)
    ensures
        b == is_web_address(s@),
{
    str_starts_with(s, "http://") || str_starts_with(s, "https://")
}

/// The address that `bytes` spell, when they are UTF-8 of a web address.
fn web_address_from_bytes(bytes: Option<Vec<u8>>) -> (r: Option<String>)
    ensures
        match bytes {
            Some(b) => r matches Some(s) ==> Some(s@) == web_address_of(Some(b@)),
            None => r is None,
        },
        match bytes {
            Some(b) => r is None <==> web_address_of(Some(b@)) is None,
            None => true,
        },
{
    match bytes {
        Some(b) => match utf8_string(b) {
            Some(s) => if is_web_address_exec(s.as_str()) {
                Some(s)
            } else {
                None
            },
            None => None,
        },
        None => None,
    }
}

/// The address one candidate encoding decodes to.
fn bing_candidate(c: &str) -> (r: Option<String>)
    ensures
        match r {
            Some(s) => bing_candidate_target(c@) == Some(s@),
            None => bing_candidate_target(c@) is None,
        },
{
    if c.is_empty() {
        return None;
    }
    let first = base64_url_safe_no_pad_decode(c);
    let ghost first_view: Option<Seq<u8>> = match first {
        Some(ref v) => Some(v@),
        None => None,
    };
    assert(first_view == base64_url_safe_no_pad_decoded(c@));
    match web_address_from_bytes(first) {
        Some(s) => {
            return Some(s);
        },
        None => {},
    }
    let n = c.as_bytes().len() % 4;
    assert(n == encode_utf8(c@).len() % 4);
    let mut padded = String::from_str(c);
    assert(padded@ == c@);
    if n == 2 {
        append_str(&mut padded, "==");
    } else if n == 3 {
        append_str(&mut padded, "=");
    }
    assert(padded@ == base64_padded(c@));
    let second = base64_url_safe_decode(padded.as_str());
    let ghost second_view: Option<Seq<u8>> = match second {
        Some(ref v) => Some(v@),
        None => None,
    };
    assert(second_view == base64_url_safe_decoded(base64_padded(c@)));
    web_address_from_bytes(second)
}

/// `s` without `prefix`, or empty when `s` does not start with it.
fn strip_or_empty(s: &[char], prefix: &str) -> (r: String)
    ensures
        r@ == rest_after_prefix(s@, prefix@),
{
    let p = chars_of(prefix);
    if starts_with_chars(s, p.as_slice()) {
        string_from_range(s, p.len(), s.len())
    } else {
        String::new()
    }
}

/// Decodes a Bing click-tracking redirect link to the address it leads to; `None`
/// for any other link or when no candidate decodes to a web address.
pub fn decode_bing_redirect(url: &str) -> (r: Option<String>)
    ensures
        match r {
            Some(s) => bing_redirect_target(url@) == Some(s@),
            None => bing_redirect_target(url@) is None,
        },
{
    if !str_contains(url, "bing.com/ck/a") {
        return None;
    }
    let chars = chars_of(url);
    let lower_string = to_lower(url);
    let lower = chars_of(lower_string.as_str());
    let amp_u = chars_of("&u=");
    let amp = chars_of("&");
    let u_start = match find_first(lower.as_slice(), amp_u.as_slice()) {
        Some(p) => p,
        None => {
            return None;
        },
    };
    proof {
        reveal_strlit("&u=");
        lemma_first_match_from_bounds(lower@, amp_u@, 0);
        assert(amp_u@.len() == 3);
        assert(matches_at(lower@, amp_u@, u_start as int));
    }
    assert(lower@.len() == lower.len());
    let start = u_start + 3;
    let end = match find_from(lower.as_slice(), amp.as_slice(), start) {
        Some(q) => q,
        None => chars.len(),
    };
    assert(lower@ == lower_cased(url@));
    assert(first_match(lower_cased(url@), "&u="@) == Some(u_start as int));
    if !(start <= end && end <= chars.len()) {
        assert(bing_u_value(url@) is None);
        return None;
    }
    let encoded_string = string_from_range(chars.as_slice(), start, end);
    let encoded = chars_of(encoded_string.as_str());
    assert(bing_u_value(url@) == Some(encoded@));
    match bing_candidate(encoded_string.as_str()) {
        Some(t) => {
            return Some(t);
        },
        None => {},
    }
    let without_a1 = strip_or_empty(encoded.as_slice(), "a1");
    match bing_candidate(without_a1.as_str()) {
        Some(t) => {
            return Some(t);
        },
        None => {},
    }
    let without_a = strip_or_empty(encoded.as_slice(), "a");
    bing_candidate(without_a.as_str())
}

/// The first delimiter position at or after `start`.
fn find_ru_delimiter(s: &[char], start: usize) -> (r: Option<usize>)
    requires
        start <= s@.len(),
    ensures
        match r {
            Some(q) => first_ru_delimiter_from(s@, start as int) == Some(q as int),
            None => first_ru_delimiter_from(s@, start as int) is None,
        },
    decreases s@.len() - start,
{
    if start >= s.len() {
        return None;
    }
    let c = s[start];
    if c == '/' || c == '&' || c == ';' {
        return Some(start);
    }
    find_ru_delimiter(s, start + 1)
}

/// Decodes a Yahoo redirect link to the address in its `RU` parameter; `None` for any
/// other link or when that value is not a web address.
pub fn decode_yahoo_redirect(url: &str) -> (r: Option<String>)
    ensures
        match r {
            Some(s) => yahoo_redirect_target(url@) == Some(s@),
            None => yahoo_redirect_target(url@) is None,
        },
{
    if !str_contains(url, "r.search.yahoo.com") && !str_contains(url, "search.yahoo.com") {
        return None;
    }
    let chars = chars_of(url);
    let upper_string = to_upper(url);
    let upper = chars_of(upper_string.as_str());
    let ru = chars_of("RU=");
    let ru_pos = match find_first(upper.as_slice(), ru.as_slice()) {
        Some(p) => p,
        None => {
            return None;
        },
    };
    if ru_pos > chars.len() || chars.len() - ru_pos < 3 {
        return None;
    }
    let start = ru_pos + 3;
    let end = match find_ru_delimiter(chars.as_slice(), start) {
        Some(q) => q,
        None => chars.len(),
    };
    proof {
        lemma_first_ru_delimiter_bounds(chars@, start as int);
    }
    let encoded = string_from_range(chars.as_slice(), start, end);
    match url_decode(encoded.as_str()) {
        Some(decoded) => if is_web_address_exec(decoded.as_str()) {
            Some(decoded)
        } else {
            None
        },
        None => None,
    }
}

proof fn lemma_first_ru_delimiter_bounds(s: Seq<char>, i: int)
    requires
        0 <= i,
    ensures
        first_ru_delimiter_from(s, i) matches Some(q) ==> i <= q < s.len(),
    decreases s.len() - i,
{
    if i >= s.len() {
    } else if is_ru_delimiter(s[i]) {
    } else {
        lemma_first_ru_delimiter_bounds(s, i + 1);
    }
}

/// The absolute address for a result link: decoded Bing and Yahoo redirects, web
/// addresses as they are, `//host/...` with `https:` in front, anything else resolved
/// against `base_url` (or kept as it is when that fails).
pub fn normalize_url(href: &str, base_url: &str) -> (r: String)
    ensures
        r@ == normalized_url(href@, base_url@),
{
    match decode_bing_redirect(href) {
        Some(t) => {
            return t;
        },
        None => {},
    }
    match decode_yahoo_redirect(href) {
        Some(t) => {
            return t;
        },
        None => {},
    }
    if is_web_address_exec(href) {
        return String::from_str(href);
    }
    if str_starts_with(href, "//") {
        let mut s = String::from_str("https:");
        append_str(&mut s, href);
        return s;
    }
    match url_join(base_url, href) {
        Some(j) => j,
        None => String::from_str(href),
    }
}

/// A Bing redirect is only read from a `bing.com/ck/a` link, and what it leads to is
/// always an `http://` or `https://` address.
pub proof fn lemma_bing_target_is_web_address(url: Seq<char>)
    ensures
        bing_redirect_target(url) is Some ==> contains_seq(url, "bing.com/ck/a"@) && is_web_address(
            bing_redirect_target(url).unwrap(),
        ),
{
}

/// A link that is no redirect is kept as it is when it is a web address, and gets the
/// `https:` scheme when it starts with `//`.
pub proof fn lemma_plain_links_kept(href: Seq<char>, base_url: Seq<char>)
    requires
        bing_redirect_target(href) is None,
        yahoo_redirect_target(href) is None,
    ensures
        is_web_address(href) ==> normalized_url(href, base_url) == href,
        !is_web_address(href) && starts_with_seq(href, "//"@) ==> normalized_url(href, base_url)
            == "https:"@ + href,
{
}

/// From position `i`, the first `/`, `&` or `;` of `s`, and none before it.
proof fn lemma_ru_span(s: Seq<char>, i: int)
    requires
        0 <= i,
    ensures
        match first_ru_delimiter_from(s, i) {
            Some(q) => i <= q < s.len() && (s[q] == '/' || s[q] == '&' || s[q] == ';') && forall|j: int|
                i <= j < q ==> s[j] != '/' && s[j] != '&' && s[j] != ';',
            None => forall|j: int| i <= j < s.len() ==> s[j] != '/' && s[j] != '&' && s[j] != ';',
        },
    decreases s.len() - i,
{
    if i < s.len() && !is_ru_delimiter(s[i]) {
        lemma_ru_span(s, i + 1);
    }
}

/// A Yahoo redirect leads to the percent-decoded value of its `RU` parameter, a web
/// address: the value starts right after the first `RU=` (in any case) and runs up
/// to the first `/`, `&` or `;` after it or to the end of the link, so it never takes
/// in the text of a following parameter.
pub proof fn lemma_yahoo_value_ends_at_delimiter(url: Seq<char>)
    ensures
        yahoo_redirect_target(url) matches Some(t) ==> exists|start: int, end: int|
            #![trigger url.subrange(start, end)]
            {
                &&& 3 <= start <= end <= url.len()
                &&& matches_at(upper_cased(url), "RU="@, start - 3)
                &&& forall|q: int| 0 <= q < start - 3 ==> !matches_at(upper_cased(url), "RU="@, q)
                &&& forall|j: int| start <= j < end ==> url[j] != '/' && url[j] != '&' && url[j] != ';'
                &&& (end == url.len() || url[end] == '/' || url[end] == '&' || url[end] == ';')
                &&& valid_utf8(percent_decoded(encode_utf8(url.subrange(start, end))))
                &&& t == decode_utf8(percent_decoded(encode_utf8(url.subrange(start, end))))
                &&& is_web_address(t)
            },
{
    if yahoo_redirect_target(url) is Some {
        let p = first_match(upper_cased(url), "RU="@).unwrap();
        lemma_first_match_from_bounds(upper_cased(url), "RU="@, 0);
        let start = p + 3;
        lemma_ru_span(url, start);
        let end = match first_ru_delimiter_from(url, start) {
            Some(q) => q,
            None => url.len() as int,
        };
        let _ = url.subrange(start, end);
    }
}

} // verus!
