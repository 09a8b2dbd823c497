use backend::cookies::{cookie_clear, cookie_set, extract_cookie};

#[test]
fn cookie_set_formats_all_attributes() {
    assert_eq!(
        cookie_set("access_token", "abc.def", 900),
        "access_token=abc.def; Path=/; HttpOnly; Secure; SameSite=Lax; Max-Age=900"
    );
    assert_eq!(
        cookie_set("refresh_token", "x", 604800),
        "refresh_token=x; Path=/; HttpOnly; Secure; SameSite=Lax; Max-Age=604800"
    );
}

#[test]
fn cookie_set_writes_zero_and_large_ages() {
    assert_eq!(cookie_set("n", "v", 0), "n=v; Path=/; HttpOnly; Secure; SameSite=Lax; Max-Age=0");
    assert_eq!(
        cookie_set("n", "v", u64::MAX),
        "n=v; Path=/; HttpOnly; Secure; SameSite=Lax; Max-Age=18446744073709551615"
    );
}

#[test]
fn cookie_clear_expires_at_once() {
    assert_eq!(
        cookie_clear("refresh_token"),
        "refresh_token=; Path=/; HttpOnly; Secure; SameSite=Lax; Max-Age=0"
    );
}

#[test]
fn cookie_clear_is_set_of_empty_value_with_zero_age() {
    for name in ["access_token", "refresh_token", "x", ""] {
        assert_eq!(cookie_clear(name), cookie_set(name, "", 0));
    }
}

#[test]
fn extract_cookie_without_header_is_none() {
    assert_eq!(extract_cookie(None, "access_token"), None);
}

#[test]
fn extract_cookie_finds_named_cookie() {
    let h = "access_token=AAA; refresh_token=RRR";
    assert_eq!(extract_cookie(Some(h), "access_token"), Some("AAA".to_string()));
    assert_eq!(extract_cookie(Some(h), "refresh_token"), Some("RRR".to_string()));
    assert_eq!(extract_cookie(Some(h), "other"), None);
}

#[test]
fn extract_cookie_trims_pieces() {
    assert_eq!(extract_cookie(Some("  a=1 ;\t b=2\t "), "b"), Some("2".to_string()));
    assert_eq!(extract_cookie(Some("\u{3000}b=2\u{a0}"), "b"), Some("2".to_string()));
}

#[test]
fn extract_cookie_takes_text_after_first_equals() {
    assert_eq!(extract_cookie(Some("t=a=b"), "t"), Some("a=b".to_string()));
    assert_eq!(extract_cookie(Some("t="), "t"), Some(String::new()));
}

#[test]
fn extract_cookie_first_match_wins() {
    assert_eq!(extract_cookie(Some("t=1; t=2"), "t"), Some("1".to_string()));
}

#[test]
fn extract_cookie_needs_exact_name() {
    assert_eq!(extract_cookie(Some("xt=1; t=2"), "t"), Some("2".to_string()));
    assert_eq!(extract_cookie(Some("t; tt=3"), "t"), None);
    assert_eq!(extract_cookie(Some("token=9"), "t"), None);
}

#[test]
fn extract_cookie_empty_header() {
    assert_eq!(extract_cookie(Some(""), "t"), None);
    assert_eq!(extract_cookie(Some(";;"), "t"), None);
}

#[test]
fn set_cookie_value_reads_back() {
    let c = cookie_set("refresh_token", "eyJ.abc.def", 604800);
    assert_eq!(extract_cookie(Some(&c), "refresh_token"), Some("eyJ.abc.def".to_string()));
    let c = cookie_clear("access_token");
    assert_eq!(extract_cookie(Some(&c), "access_token"), Some(String::new()));
}
