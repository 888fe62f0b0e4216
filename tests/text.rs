use cloud_completion::text::{ends_with, parse_decimal_from, same_text, starts_with};

#[test]
fn prefix_and_suffix() {
    assert!(starts_with("upstream_http_429", "upstream_http_"));
    assert!(!starts_with("upstream", "upstream_http_"));
    assert!(ends_with("upstream_http_error", "_error"));
    assert!(!ends_with("upstream_http_429", "_error"));
    assert!(starts_with("é-x", "é"));
    assert!(same_text("abc", "abc"));
    assert!(!same_text("abc", "abcd"));
}

#[test]
fn decimal_parsing_matches_std() {
    for s in ["0", "429", "+429", "0429", "65535", "65536", "", "+", "4x", "-1", " 1", "++1"] {
        let expected = s.parse::<u16>().ok().map(u32::from);
        assert_eq!(parse_decimal_from(s, 0, 65535), expected, "input {:?}", s);
    }
    assert_eq!(parse_decimal_from("code_4294967295", 5, u32::MAX), Some(u32::MAX));
    assert_eq!(parse_decimal_from("4294967296", 0, u32::MAX), None);
}
