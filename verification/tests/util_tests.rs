use nix_parser::{escape_nix_string, is_nix_file, is_valid_identifier, needs_quoting, unescape_nix_string};
use nix_parser::strutil::parse_i64;
use nix_parser::strutil::split_on_dots;

#[test]
fn test_identifier_validation() {
    assert!(is_valid_identifier("foo"));
    assert!(is_valid_identifier("_private"));
    assert!(is_valid_identifier("var123"));
    assert!(is_valid_identifier("foo-bar"));
    assert!(is_valid_identifier("foo'"));

    assert!(!is_valid_identifier("123var"));
    assert!(!is_valid_identifier(""));
    assert!(!is_valid_identifier("foo.bar"));
    assert!(!is_valid_identifier("foo@bar"));
}

#[test]
fn test_string_escaping() {
    assert_eq!(escape_nix_string("hello"), "hello");
    assert_eq!(escape_nix_string("hello \"world\""), "hello \\\"world\\\"");
    assert_eq!(escape_nix_string("line1\nline2"), "line1\\nline2");
    assert_eq!(escape_nix_string("${var}"), "\\${var}");
}

#[test]
fn test_string_unescaping() {
    assert_eq!(unescape_nix_string("hello").unwrap(), "hello");
    assert_eq!(unescape_nix_string("hello \\\"world\\\"").unwrap(), "hello \"world\"");
    assert_eq!(unescape_nix_string("line1\\nline2").unwrap(), "line1\nline2");
    assert_eq!(unescape_nix_string("\\${var}").unwrap(), "${var}");

    assert!(unescape_nix_string("invalid\\x").is_err());
    assert!(unescape_nix_string("incomplete\\").is_err());
}

#[test]
fn test_needs_quoting() {
    assert!(!needs_quoting("foo"));
    assert!(!needs_quoting("_private"));
    assert!(needs_quoting("let"));
    assert!(needs_quoting("foo.bar"));
    assert!(needs_quoting("123var"));
}

#[test]
fn test_nix_file_detection() {
    assert!(is_nix_file("foo.nix"));
    assert!(!is_nix_file("foo.txt"));
    assert!(!is_nix_file("foo"));
}

#[test]
fn test_number_rendering() {
    assert_eq!(nix_parser::strutil::usize_to_string(0), "0");
    assert_eq!(nix_parser::strutil::usize_to_string(7), "7");
    assert_eq!(nix_parser::strutil::u64_to_string(1234567890123), "1234567890123");
}

#[test]
fn test_integer_literal_parsing() {
    assert_eq!(parse_i64("0"), Some(0));
    assert_eq!(parse_i64("42"), Some(42));
    assert_eq!(parse_i64("-17"), Some(-17));
    assert_eq!(parse_i64("+9"), Some(9));
    assert_eq!(parse_i64("9223372036854775807"), Some(i64::MAX));
    assert_eq!(parse_i64("-9223372036854775808"), Some(i64::MIN));
    assert_eq!(parse_i64("9223372036854775808"), None);
    assert_eq!(parse_i64("-9223372036854775809"), None);
    assert_eq!(parse_i64("00000000000000000000042"), Some(42));
    assert_eq!(parse_i64(""), None);
    assert_eq!(parse_i64("-"), None);
    assert_eq!(parse_i64("4x2"), None);
}

#[test]
fn test_dot_splitting() {
    assert_eq!(split_on_dots("a.b.c"), vec!["a", "b", "c"]);
    assert_eq!(split_on_dots("plain"), vec!["plain"]);
    assert_eq!(split_on_dots(""), vec![""]);
    assert_eq!(split_on_dots("a..b"), vec!["a", "", "b"]);
}
