use megalodon::text::{join_path, normalize_base_url, str_eq};

#[test]
fn trailing_slashes_are_dropped() {
    assert_eq!(normalize_base_url("https://a.test///"), "https://a.test");
    assert_eq!(normalize_base_url("https://a.test"), "https://a.test");
    assert_eq!(normalize_base_url("/"), "");
    assert_eq!(normalize_base_url(""), "");
}

#[test]
fn join_and_compare() {
    assert_eq!(join_path("https://ü.test/", "/x"), "https://ü.test/x");
    assert!(str_eq("ab", "ab"));
    assert!(!str_eq("ab", "abc"));
    assert!(!str_eq("ab", "ac"));
}
