use consul_online::text::{same_text, starts_with, trim};

#[test]
fn trim_cuts_both_ends_only() {
    assert_eq!(trim("  a b  "), "a b");
    assert_eq!(trim("token\n"), "token");
    assert_eq!(trim("\r\n\ttoken"), "token");
    assert_eq!(trim("token"), "token");
    assert_eq!(trim(""), "");
    assert_eq!(trim(" \t\r\n"), "");
    assert_eq!(trim("\u{a0}\u{2003}x\u{3000}"), "x");
    assert_eq!(trim(" \u{e9}t\u{e9} "), "\u{e9}t\u{e9}");
}

#[test]
fn trim_agrees_with_the_standard_library() {
    for text in ["", " ", "a", " a", "a ", "  a  b \n", "\u{2028}z\u{85}", "\u{200b} x"] {
        assert_eq!(trim(text), text.trim());
    }
}

#[test]
fn starts_with_compares_the_first_characters() {
    assert!(starts_with("http://h", "http://"));
    assert!(starts_with("http://", "http://"));
    assert!(starts_with("anything", ""));
    assert!(starts_with("", ""));
    assert!(!starts_with("http:/", "http://"));
    assert!(!starts_with("", "x"));
    assert!(!starts_with("Http://h", "http://"));
    assert!(starts_with("\u{e9}t\u{e9}", "\u{e9}t"));
}

#[test]
fn same_text_is_equality() {
    assert!(same_text("", ""));
    assert!(same_text("true", "true"));
    assert!(!same_text("true", "true "));
    assert!(!same_text("true", "tru"));
    assert!(!same_text("true", "trua"));
}
