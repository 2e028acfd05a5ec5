//! Text encodings that the search logic relies on: percent-encoding, Base64,
//! UTF-8, URL resolution and Unicode case mapping.
use vstd::prelude::*;
use vstd::utf8::*;
use vstd::string::*;
use base64::Engine;

verus! {

/// Bytes that percent-encoding leaves as they are: ASCII alphanumerics and `-`, `.`, `_`, `~`.
pub open spec fn is_unreserved(b: u8) -> bool {
    (48 <= b <= 57) || (65 <= b <= 90) || (97 <= b <= 122) || b == 45 || b == 46 || b == 95 || b
        == 126
}

/// Upper-case hexadecimal digit of `d < 16`.
pub open spec fn hex_digit_upper(d: int) -> char {
    if d < 10 {
        (48 + d) as char
    } else {
        (55 + d) as char
    }
}

/// Every byte but the unreserved ones written as `%XX`, with upper-case hex digits.
pub open spec fn percent_encoded(bytes: Seq<u8>) -> Seq<char>
    decreases bytes.len(),
{
    if bytes.len() == 0 {
        seq![]
    } else {
        let b = bytes[0];
        let head = if is_unreserved(b) {
            seq![b as char]
        } else {
            seq!['%', hex_digit_upper(b as int / 16), hex_digit_upper(b as int % 16)]
        };
        head + percent_encoded(bytes.drop_first())
    }
}

/// The value of a hexadecimal digit, in either case.
pub open spec fn hex_value(b: u8) -> Option<u8> {
    if 48 <= b <= 57 {
        Some((b - 48) as u8)
    } else if 65 <= b <= 70 {
        Some((b - 55) as u8)
    } else if 97 <= b <= 102 {
        Some((b - 87) as u8)
    } else {
        None
    }
}

/// Every `%` followed by two hex digits replaced by the byte they spell; all else kept.
pub open spec fn percent_decoded(bytes: Seq<u8>) -> Seq<u8>
    decreases bytes.len(),
{
    if bytes.len() == 0 {
        seq![]
    } else if bytes[0] == 37 && bytes.len() >= 3 && hex_value(bytes[1]) is Some && hex_value(
        bytes[2],
    ) is Some {
        seq![(hex_value(bytes[1]).unwrap() * 16 + hex_value(bytes[2]).unwrap()) as u8]
            + percent_decoded(bytes.subrange(3, bytes.len() as int))
    } else {
        seq![bytes[0]] + percent_decoded(bytes.drop_first())
    }
}

/// `urlencoding::encode`: percent-encodes the UTF-8 bytes of `s`, keeping only
/// ASCII alphanumerics and `-`, `.`, `_`, `~` as they are.
#[verifier::external_body]
pub(crate) fn url_encode(s: &str) -> (r: String)
    ensures
        r@ == percent_encoded(encode_utf8(s@)),
{
    urlencoding::encode(s).into_owned()
}

/// `urlencoding::decode`: decodes each `%XX` escape in the bytes of `s`, then reads
/// the bytes as UTF-8; `None` when they are not valid UTF-8.
#[verifier::external_body]
pub(crate) fn url_decode(s: &str) -> (r: Option<String>)
    ensures
        r is Some <==> valid_utf8(percent_decoded(encode_utf8(s@))),
        r matches Some(t) ==> t@ == decode_utf8(percent_decoded(encode_utf8(s@))),
{
    urlencoding::decode(s).ok().map(|c| c.into_owned())
}

/// What the Base64 engine `URL_SAFE` (URL-safe alphabet, padding required) decodes
/// `input` to; `None` for a decoding error.
pub uninterp spec fn base64_url_safe_decoded(input: Seq<char>) -> Option<Seq<u8>>;

/// What the Base64 engine `URL_SAFE_NO_PAD` (URL-safe alphabet, no padding) decodes
/// `input` to; `None` for a decoding error.
pub uninterp spec fn base64_url_safe_no_pad_decoded(input: Seq<char>) -> Option<Seq<u8>>;

/// `base64::engine::general_purpose::URL_SAFE.decode`; the result is named by
/// `base64_url_safe_decoded`.
#[verifier::external_body]
pub(crate) fn base64_url_safe_decode(input: &str) -> (r: Option<Vec<u8>>)
    ensures
        r matches Some(v) ==> base64_url_safe_decoded(input@) == Some(v@),
        r is None ==> base64_url_safe_decoded(input@) is None,
{
    base64::engine::general_purpose::URL_SAFE.decode(input).ok()
}

/// `base64::engine::general_purpose::URL_SAFE_NO_PAD.decode`; the result is named by
/// `base64_url_safe_no_pad_decoded`.
#[verifier::external_body]
pub(crate) fn base64_url_safe_no_pad_decode(input: &str) -> (r: Option<Vec<u8>>)
    ensures
        r matches Some(v) ==> base64_url_safe_no_pad_decoded(input@) == Some(v@),
        r is None ==> base64_url_safe_no_pad_decoded(input@) is None,
{
    base64::engine::general_purpose::URL_SAFE_NO_PAD.decode(input).ok()
}

/// `String::from_utf8`: `Some` exactly when the bytes are valid UTF-8, holding the
/// chars they encode.
#[verifier::external_body]
pub(crate) fn utf8_string(bytes: Vec<u8>) -> (r: Option<String>)
    ensures
        r is Some <==> valid_utf8(bytes@),
        r matches Some(s) ==> s@ == decode_utf8(bytes@),
{
    String::from_utf8(bytes).ok()
}

/// What `url::Url::parse(base)` followed by `join(href)` and serialisation gives:
/// `None` when either step fails.
pub uninterp spec fn url_joined(base: Seq<char>, href: Seq<char>) -> Option<Seq<char>>;

/// `url::Url::parse(base)?.join(href)?.to_string()`; the result is named by `url_joined`.
#[verifier::external_body]
pub(crate) fn url_join(base: &str, href: &str) -> (r: Option<String>)
    ensures
        r matches Some(s) ==> url_joined(base@, href@) == Some(s@),
        r is None ==> url_joined(base@, href@) is None,
{
    match url::Url::parse(base) {
        Ok(b) => b.join(href).ok().map(|u| u.to_string()),
        Err(_) => None,
    }
}

/// The full Unicode upper-case mapping of `s` (`str::to_uppercase`).
pub uninterp spec fn upper_cased(s: Seq<char>) -> Seq<char>;

/// The full Unicode lower-case mapping of `s` (`str::to_lowercase`).
pub uninterp spec fn lower_cased(s: Seq<char>) -> Seq<char>;

/// Whether every char of `s` is ASCII.
pub open spec fn is_ascii_text(s: Seq<char>) -> bool {
    forall|i: int| 0 <= i < s.len() ==> (#[trigger] s[i] as u32) < 128
}

/// `s` with its ASCII lower-case letters made upper-case.
pub open spec fn ascii_upper(s: Seq<char>) -> Seq<char> {
    s.map_values(|c: char| if 'a' <= c <= 'z' { ((c as u32) - 32) as char } else { c })
}

/// `str::to_uppercase`; the result is named by `upper_cased`. On ASCII text it makes
/// the lower-case letters upper-case and keeps every other char.
#[verifier::external_body]
pub(crate) fn to_upper(s: &str) -> (r: String)
    ensures
        r@ == upper_cased(s@),
        is_ascii_text(s@) ==> r@ == ascii_upper(s@),
{
    s.to_uppercase()
}

/// Whether every char of `s` is an ASCII lower-case letter or digit.
pub open spec fn is_lower_ascii(s: Seq<char>) -> bool {
    forall|i: int| 0 <= i < s.len() ==> ('a' <= #[trigger] s[i] <= 'z' || '0' <= s[i] <= '9')
}

/// `s` with its ASCII upper-case letters made lower-case.
pub open spec fn ascii_lower(s: Seq<char>) -> Seq<char> {
    s.map_values(|c: char| if 'A' <= c <= 'Z' { ((c as u32) + 32) as char } else { c })
}

/// `str::to_lowercase`; the result is named by `lower_cased`. ASCII lower-case
/// letters and digits map to themselves, so a text made only of them comes back as
/// it is; on ASCII text it makes the upper-case letters lower-case and keeps every
/// other char.
#[verifier::external_body]
pub(crate) fn to_lower(s: &str) -> (r: String)
    ensures
        r@ == lower_cased(s@),
        is_lower_ascii(s@) ==> r@ == s@,
        is_ascii_text(s@) ==> r@ == ascii_lower(s@),
{
    s.to_lowercase()
}

} // verus!
