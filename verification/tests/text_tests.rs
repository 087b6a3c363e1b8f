//! The character-level helpers: trimming, joining and decimal
//! formatting.

use pixiv_crawler::text::{join_path, last_segment, trim_str, u64_to_dec};

#[test]
fn trim_removes_leading_and_trailing_whitespace() {
    assert_eq!(trim_str("  abc  "), "abc");
    assert_eq!(trim_str("\t a b \n"), "a b");
    assert_eq!(trim_str("abc"), "abc");
    assert_eq!(trim_str(""), "");
    assert_eq!(trim_str(" \t\r\n "), "");
    assert_eq!(trim_str("\u{3000}wide\u{3000}"), "wide");
}

#[test]
fn join_path_inserts_one_slash() {
    assert_eq!(join_path("/data", "1"), "/data/1");
    assert_eq!(join_path("", "x"), "/x");
}

#[test]
fn last_segment_is_text_after_last_slash() {
    assert_eq!(last_segment("a/b/c.jpg"), "c.jpg");
    assert_eq!(last_segment("plain"), "plain");
    assert_eq!(last_segment("trailing/"), "");
    assert_eq!(last_segment(""), "");
}

#[test]
fn decimal_formatting_matches_std() {
    assert_eq!(u64_to_dec(0), "0");
    assert_eq!(u64_to_dec(7), "7");
    assert_eq!(u64_to_dec(10), "10");
    assert_eq!(u64_to_dec(1960050), "1960050");
    assert_eq!(u64_to_dec(u64::MAX), "18446744073709551615");
    for n in [1u64, 9, 99, 100, 101, 123456789] {
        assert_eq!(u64_to_dec(n), format!("{}", n));
    }
}
