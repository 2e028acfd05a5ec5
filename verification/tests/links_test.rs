use mcp_web_search::links::{decode_bing_redirect, decode_yahoo_redirect, normalize_url};

#[test]
fn test_decode_bing_redirect() {
    let test_url = "https://www.bing.com/ck/a?!&&p=207d362a9d288e6dfdfe7baccdd054f33ba96ac6ccf4603cbdc1ef27ffbbb025JmltdHM9MTc4MzU1NTIwMA&ptn=3&ver=2&hsh=4&fclid=36e59229-9ed0-6f42-3c08-85b89f876eaf&u=a1aHR0cHM6Ly9ydXN0LWxhbmcub3JnLw&ntb=1";
    let result = decode_bing_redirect(test_url);
    assert_eq!(result, Some("https://rust-lang.org/".to_string()));
}

#[test]
fn test_decode_bing_redirect_wikipedia() {
    let test_url = "https://www.bing.com/ck/a?!&&p=07be756f04082cac4ed440b486dcd5045814370ee8f9bba67fe05cb8fc2fee5cJmltdHM9MTc4MzU1NTIwMA&ptn=3&ver=2&hsh=4&fclid=36e59229-9ed0-6f42-3c08-85b89f876eaf&u=a1aHR0cHM6Ly9lbi53aWtpcGVkaWEub3JnL3dpa2kvUnVzdF8ocHJvZ3JhbW1pbmdfbGFuZ3VhZ2Up&ntb=1";
    let result = decode_bing_redirect(test_url);
    assert_eq!(
        result,
        Some("https://en.wikipedia.org/wiki/Rust_(programming_language)".to_string())
    );
}

#[test]
fn test_decode_bing_redirect_non_bing() {
    let test_url = "https://google.com/search?q=test";
    let result = decode_bing_redirect(test_url);
    assert_eq!(result, None);
}

#[test]
fn bing_redirect_without_u_parameter_is_none() {
    assert_eq!(decode_bing_redirect("https://www.bing.com/ck/a?!&&p=abc&ntb=1"), None);
}

#[test]
fn bing_redirect_to_non_web_address_is_none() {
    // "Zm9vYmFy" is "foobar", which is no web address.
    assert_eq!(decode_bing_redirect("https://www.bing.com/ck/a?u=a1Zm9vYmFy&ntb=1"), None);
}

#[test]
fn yahoo_redirect_is_decoded() {
    let url = "https://r.search.yahoo.com/_ylt=AwrE;_ylu=Y29s/RV=2/RE=1/RO=10/RU=https%3a%2f%2frust-lang.org%2f/RK=2/RS=abc";
    assert_eq!(decode_yahoo_redirect(url), Some("https://rust-lang.org/".to_string()));
}

#[test]
fn yahoo_non_redirect_is_none() {
    assert_eq!(decode_yahoo_redirect("https://example.com/?RU=https%3a%2f%2fx.org"), None);
}

#[test]
fn normalize_keeps_web_addresses() {
    assert_eq!(normalize_url("https://example.com/a", "https://base.org"), "https://example.com/a");
    assert_eq!(normalize_url("http://example.com/a", "https://base.org"), "http://example.com/a");
}

#[test]
fn normalize_completes_protocol_relative_links() {
    assert_eq!(normalize_url("//cdn.example.com/x", "https://base.org"), "https://cdn.example.com/x");
}

#[test]
fn normalize_joins_relative_links() {
    assert_eq!(normalize_url("/watch?v=1", "https://www.youtube.com"), "https://www.youtube.com/watch?v=1");
}

#[test]
fn normalize_keeps_link_when_base_does_not_parse() {
    assert_eq!(normalize_url("/x", "not a url"), "/x");
}

#[test]
fn normalize_decodes_bing_redirects() {
    let url = "https://www.bing.com/ck/a?!&&p=1&u=a1aHR0cHM6Ly9ydXN0LWxhbmcub3JnLw&ntb=1";
    assert_eq!(normalize_url(url, "https://www.bing.com"), "https://rust-lang.org/");
}
