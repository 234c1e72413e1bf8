use ocr_client::text::chars_of;
use ocr_client::text::ends_with;
use ocr_client::text::find_chars;
use ocr_client::text::parse_u32;
use ocr_client::text::split_ascii_whitespace;
use ocr_client::text::starts_with;

fn found(hay: &str, needle: &str) -> bool {
    find_chars(&chars_of(hay), &chars_of(needle))
}

#[test]
fn chars_are_the_characters_in_order() {
    assert_eq!(chars_of(""), Vec::<char>::new());
    assert_eq!(chars_of("a\u{e9}\u{4e2d}!"), vec!['a', '\u{e9}', '\u{4e2d}', '!']);
}

#[test]
fn words_are_split_at_ascii_whitespace() {
    assert_eq!(split_ascii_whitespace(""), Vec::<&str>::new());
    assert_eq!(split_ascii_whitespace(" \t\r\n\x0C"), Vec::<&str>::new());
    assert_eq!(split_ascii_whitespace("one"), vec!["one"]);
    assert_eq!(split_ascii_whitespace("  one\ttwo \n three  "), vec!["one", "two", "three"]);
    assert_eq!(split_ascii_whitespace("a\u{a0}b c"), vec!["a\u{a0}b", "c"]);
    assert_eq!(split_ascii_whitespace("caf\u{e9} \u{4e2d}\u{6587}"), vec!["caf\u{e9}", "\u{4e2d}\u{6587}"]);
}

#[test]
fn words_agree_with_the_standard_library() {
    for text in ["", "x", " x", "x ", "a  b", "\n\na\tb\rc\x0Cd", "due 02/05/2024. \"Net 30,\""] {
        let expected: Vec<&str> = text.split_ascii_whitespace().collect();
        assert_eq!(split_ascii_whitespace(text), expected);
    }
}

#[test]
fn decimal_numbers_are_read_exactly() {
    assert_eq!(parse_u32("0"), Some(0));
    assert_eq!(parse_u32("30"), Some(30));
    assert_eq!(parse_u32("007"), Some(7));
    assert_eq!(parse_u32("4294967295"), Some(4294967295));
    assert_eq!(parse_u32("00000000004294967295"), Some(4294967295));
}

#[test]
fn decimal_numbers_reject_what_is_no_number() {
    assert_eq!(parse_u32(""), None);
    assert_eq!(parse_u32("4294967296"), None);
    assert_eq!(parse_u32("99999999999"), None);
    assert_eq!(parse_u32("12a"), None);
    assert_eq!(parse_u32("-1"), None);
    assert_eq!(parse_u32(" 1"), None);
    assert_eq!(parse_u32("\u{663}"), None);
}

#[test]
fn prefixes_and_suffixes() {
    assert!(starts_with("localhost:8000", "localhost"));
    assert!(starts_with("abc", ""));
    assert!(starts_with("abc", "abc"));
    assert!(!starts_with("ab", "abc"));
    assert!(!starts_with("Localhost", "localhost"));
    assert!(ends_with("scan.pdf", ".pdf"));
    assert!(ends_with("abc", ""));
    assert!(!ends_with("pdf", ".pdf"));
    assert!(!ends_with("scan.pdf ", ".pdf"));
}

#[test]
fn substrings_are_found_anywhere() {
    assert!(found("Invoice 42", "Invoice"));
    assert!(found("An Invoice", "Invoice"));
    assert!(found("abc", ""));
    assert!(found("", ""));
    assert!(found("aab", "ab"));
    assert!(!found("invoice", "Invoice"));
    assert!(!found("Inv", "Invoice"));
    assert!(!found("", "a"));
}
