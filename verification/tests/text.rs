use internet_radio_mcp::text::{
    characters, decimal_text, find, join, same_text, starts_with_ignoring_case, text_before,
};

#[test]
fn numbers_in_decimal() {
    assert_eq!(decimal_text(0), "0");
    assert_eq!(decimal_text(9), "9");
    assert_eq!(decimal_text(10), "10");
    assert_eq!(decimal_text(1234567890), "1234567890");
    assert_eq!(decimal_text(u64::MAX), "18446744073709551615");
}

#[test]
fn finding_text() {
    assert_eq!(find("abcabc", "ca"), Some(2));
    assert_eq!(find("abcabc", "abc"), Some(0));
    assert_eq!(find("abc", ""), Some(0));
    assert_eq!(find("", ""), Some(0));
    assert_eq!(find("abc", "abcd"), None);
    assert_eq!(find("aab", "ab"), Some(1));
    assert_eq!(find("▶ Now playing", "Now"), Some(2));
    assert_eq!(find("▶ Now playing", "now"), None);
}

#[test]
fn text_before_a_separator() {
    assert_eq!(text_before("https://x", "://"), "https");
    assert_eq!(text_before("é://x", "://"), "é");
    assert_eq!(text_before("none", "://"), "none");
    assert_eq!(text_before("://x", "://"), "");
}

#[test]
fn prefixes_in_either_case() {
    assert!(starts_with_ignoring_case("HtTp://", "http://"));
    assert!(starts_with_ignoring_case("anything", ""));
    assert!(!starts_with_ignoring_case("htt", "http"));
    // Only letters have two cases.
    assert!(!starts_with_ignoring_case("@", "`"));
}

#[test]
fn whole_texts() {
    assert!(same_text("jazz", "jazz"));
    assert!(!same_text("jazz", "Jazz"));
    assert_eq!(join("a", "é"), "aé");
    assert_eq!(characters("aé▶"), vec!['a', 'é', '▶']);
}
