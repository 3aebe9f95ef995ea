use stock_crawler::text::{chars_of, contains, is_ok, render_i64, render_u64};

#[test]
fn numbers_are_written_in_decimal() {
    assert_eq!(render_u64(0), "0");
    assert_eq!(render_u64(7), "7");
    assert_eq!(render_u64(10), "10");
    assert_eq!(render_u64(u64::MAX), "18446744073709551615");
    assert_eq!(render_i64(2023), "2023");
    assert_eq!(render_i64(-1), "-1");
    assert_eq!(render_i64(i64::MIN), "-9223372036854775808");
    assert_eq!(render_i64(i64::MAX), "9223372036854775807");
}

#[test]
fn search_finds_a_part_anywhere() {
    assert!(contains("2024-01-01 market", "market"));
    assert!(contains("abcabd", "abd"));
    assert!(contains("abc", ""));
    assert!(contains("", ""));
    assert!(!contains("", "a"));
    assert!(!contains("abc", "abcd"));
    assert!(!contains("ababab", "aa"));
    assert!(contains("國曆新年開始交易日", "開始交易"));
    assert!(!contains("國曆新年", "開始交易"));
}

#[test]
fn ok_is_read_without_regard_to_case() {
    assert!(is_ok("OK"));
    assert!(is_ok("ok"));
    assert!(is_ok("Ok"));
    assert!(is_ok("oK"));
    assert!(!is_ok("OK "));
    assert!(!is_ok("O"));
    assert!(!is_ok(""));
    assert!(!is_ok("NO"));
}

#[test]
fn a_text_is_taken_apart_into_its_characters() {
    assert_eq!(chars_of("台a"), vec!['台', 'a']);
    assert_eq!(chars_of(""), Vec::<char>::new());
}
