use chilloutvr::wire::{json_quote, parse_digits, quoted_list_str, str_eq, u64_to_string};

#[test]
fn decimal_printing() {
    assert_eq!(u64_to_string(0), "0");
    assert_eq!(u64_to_string(7), "7");
    assert_eq!(u64_to_string(9999), "9999");
    assert_eq!(u64_to_string(u64::MAX), "18446744073709551615");
}

#[test]
fn decimal_parsing() {
    assert_eq!(parse_digits("123", 0, 3), Some(123));
    assert_eq!(parse_digits("123", 1, 3), Some(23));
    assert_eq!(parse_digits("123", 1, 1), Some(0));
    assert_eq!(parse_digits("18446744073709551615", 0, 20), Some(u64::MAX));
    // one past the largest value no longer fits
    assert_eq!(parse_digits("18446744073709551616", 0, 20), None);
    assert_eq!(parse_digits("99999999999999999999", 0, 20), None);
}

#[test]
fn json_quoting_escapes() {
    assert_eq!(json_quote("plain"), "\"plain\"");
    assert_eq!(json_quote("a\"b"), "\"a\\\"b\"");
    assert_eq!(json_quote("back\\slash"), "\"back\\\\slash\"");
    assert_eq!(json_quote("line\nbreak"), "\"line\\nbreak\"");
    assert_eq!(json_quote("tab\there"), "\"tab\\there\"");
    assert_eq!(json_quote("cr\rhere"), "\"cr\\rhere\"");
    assert_eq!(json_quote("bell\u{07}"), "\"bell\\u0007\"");
    assert_eq!(json_quote("esc\u{1b}!"), "\"esc\\u001b!\"");
    // the quoted text is real JSON: serde reads back what went in
    let quoted = json_quote("a\"b\\c\nd\u{07}");
    let back: String = serde_json::from_str(&quoted).expect("quoted text parses as JSON");
    assert_eq!(back, "a\"b\\c\nd\u{07}");
}

#[test]
fn string_equality() {
    assert!(str_eq("", ""));
    assert!(str_eq("abc", "abc"));
    assert!(!str_eq("abc", "abd"));
    assert!(!str_eq("abc", "abcd"));
    assert!(str_eq("ü", "ü"));
}

#[test]
fn quoted_lists() {
    assert_eq!(quoted_list_str(&vec![]), "[]");
    assert_eq!(quoted_list_str(&vec!["a".to_string()]), "[\"a\"]");
    assert_eq!(
        quoted_list_str(&vec!["a".to_string(), "b\"c".to_string()]),
        "[\"a\", \"b\\\"c\"]"
    );
}
