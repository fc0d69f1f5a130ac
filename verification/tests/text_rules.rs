use ibcrm::numbering::{decimal_string, next_record_number, parse_digits, zero_padded5};
use ibcrm::text::{split_in_two, split_once, str_lt, to_lowercase, trim};

#[test]
fn trimming_follows_unicode_whitespace() {
    assert_eq!(trim("  a b \n"), "a b");
    assert_eq!(trim("\u{3000}x\u{a0}"), "x");
    assert_eq!(trim("   "), "");
    assert_eq!(trim(""), "");
}

#[test]
fn text_order_is_lexicographic() {
    assert!(str_lt("2024-01-01", "2024-01-02"));
    assert!(!str_lt("2024-01-02", "2024-01-01"));
    assert!(!str_lt("a", "a"));
    assert!(str_lt("a", "ab"));
}

#[test]
fn splitting() {
    assert_eq!(split_in_two("a:b", ':'), Some(("a".to_string(), "b".to_string())));
    assert_eq!(split_in_two("a:b:c", ':'), None);
    assert_eq!(split_in_two(":", ':'), Some((String::new(), String::new())));
    assert_eq!(split_once("a:b:c", ':'), Some(("a".to_string(), "b:c".to_string())));
    assert_eq!(to_lowercase("ПРИВЕТ World"), "привет world");
}

#[test]
fn record_numbers() {
    assert_eq!(next_record_number("EMP", 0), "EMP-00001");
    assert_eq!(next_record_number("CLI", 41), "CLI-00042");
    assert_eq!(next_record_number("REG", 99999), "REG-100000");
    assert_eq!(decimal_string(0), "0");
    assert_eq!(zero_padded5(7), "00007");
}

#[test]
fn digit_parsing() {
    assert_eq!(parse_digits("8778", 65535), Some(8778));
    assert_eq!(parse_digits("65536", 65535), None);
    assert_eq!(parse_digits("", 10), None);
    assert_eq!(parse_digits("1a", 100), None);
    assert_eq!(parse_digits("007", 10), Some(7));
}
