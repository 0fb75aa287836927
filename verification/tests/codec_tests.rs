use unitycatalog_rs::codec::{append_query_pair, bool_text, form_urlencode, i32_to_dec};

#[test]
fn urlencode_keeps_safe_bytes() {
    assert_eq!(form_urlencode("abcXYZ019*-._"), "abcXYZ019*-._");
}

#[test]
fn urlencode_space_becomes_plus() {
    assert_eq!(form_urlencode("a b"), "a+b");
}

#[test]
fn urlencode_percent_escapes_reserved_bytes() {
    assert_eq!(form_urlencode("a/b?c=d&e"), "a%2Fb%3Fc%3Dd%26e");
    assert_eq!(form_urlencode(""), "");
}

#[test]
fn urlencode_escapes_utf8_bytes() {
    assert_eq!(form_urlencode("\u{e9}"), "%C3%A9");
}

#[test]
fn urlencode_matches_url_crate() {
    for s in ["token 1/2", "plain", "a=b&c", "\u{e9}t\u{e9}", "*-._~!"] {
        let ours = form_urlencode(s);
        let theirs: String = url::form_urlencoded::byte_serialize(s.as_bytes()).collect();
        assert_eq!(ours, theirs);
    }
}

#[test]
fn query_pairs_join_with_ampersand() {
    let mut q = String::new();
    append_query_pair(&mut q, "catalog_name", "unity");
    append_query_pair(&mut q, "page_token", "a b");
    assert_eq!(q, "catalog_name=unity&page_token=a+b");
}

#[test]
fn decimal_rendering_is_exact() {
    assert_eq!(i32_to_dec(0), "0");
    assert_eq!(i32_to_dec(50), "50");
    assert_eq!(i32_to_dec(-1), "-1");
    assert_eq!(i32_to_dec(2147483647), "2147483647");
    assert_eq!(i32_to_dec(-2147483648), "-2147483648");
}

#[test]
fn bool_text_is_exact() {
    assert_eq!(bool_text(true), "true");
    assert_eq!(bool_text(false), "false");
}
