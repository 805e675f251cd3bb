use couchbase_shell::text::decimal_string;
use couchbase_shell::text::same_text;
use couchbase_shell::text::signed_decimal_string;
use couchbase_shell::text::split;

#[test]
fn decimal_of_zero_is_one_digit() {
    assert_eq!(decimal_string(0), "0");
}

#[test]
fn decimal_of_small_and_large_numbers() {
    assert_eq!(decimal_string(7), "7");
    assert_eq!(decimal_string(10), "10");
    assert_eq!(decimal_string(4096), "4096");
    assert_eq!(decimal_string(u64::MAX), "18446744073709551615");
}

#[test]
fn signed_decimal_puts_a_minus_before_negative_numbers() {
    assert_eq!(signed_decimal_string(-1), "-1");
    assert_eq!(signed_decimal_string(0), "0");
    assert_eq!(signed_decimal_string(250), "250");
    assert_eq!(signed_decimal_string(i64::MIN), "-9223372036854775808");
    assert_eq!(signed_decimal_string(i64::MAX), "9223372036854775807");
}

#[test]
fn split_keeps_empty_pieces() {
    assert_eq!(split("", ','), vec!["".to_string()]);
    assert_eq!(split("a", ','), vec!["a".to_string()]);
    assert_eq!(split("a,b", ','), vec!["a".to_string(), "b".to_string()]);
    assert_eq!(
        split("a,,b,", ','),
        vec!["a".to_string(), "".to_string(), "b".to_string(), "".to_string()]
    );
}

#[test]
fn split_counts_characters_not_bytes() {
    assert_eq!(split("é:ü", ':'), vec!["é".to_string(), "ü".to_string()]);
}

#[test]
fn same_text_is_case_sensitive() {
    assert!(same_text("majority", "majority"));
    assert!(!same_text("majority", "Majority"));
    assert!(!same_text("a", "ab"));
}
