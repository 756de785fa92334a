use hdfs_mirror::error::ValueFault;
use hdfs_mirror::text::{
    after_spaces, after_token, char_is_digit, char_is_space, chars_of, digits_only, parse_u64,
    position_of, same_chars, string_of,
};

fn cs(s: &str) -> Vec<char> {
    s.chars().collect()
}

#[test]
fn chars_and_strings_round_trip() {
    assert_eq!(chars_of("a\u{e9}\u{4e2d}z"), vec!['a', '\u{e9}', '\u{4e2d}', 'z']);
    assert_eq!(chars_of(""), Vec::<char>::new());
    let v = cs("hello world");
    assert_eq!(string_of(&v, 0, 5), "hello");
    assert_eq!(string_of(&v, 6, 11), "world");
    assert_eq!(string_of(&v, 3, 3), "");
}

#[test]
fn parse_u64_reads_decimal_numbers() {
    assert_eq!(parse_u64(&cs("0")), Ok(0));
    assert_eq!(parse_u64(&cs("1024")), Ok(1024));
    assert_eq!(parse_u64(&cs("+7")), Ok(7));
    assert_eq!(parse_u64(&cs("007")), Ok(7));
    assert_eq!(parse_u64(&cs("18446744073709551615")), Ok(u64::MAX));
}

#[test]
fn parse_u64_names_the_fault() {
    assert_eq!(parse_u64(&cs("")), Err(ValueFault::Empty));
    assert_eq!(parse_u64(&cs("+")), Err(ValueFault::InvalidDigit));
    assert_eq!(parse_u64(&cs("-1")), Err(ValueFault::InvalidDigit));
    assert_eq!(parse_u64(&cs("12a")), Err(ValueFault::InvalidDigit));
    assert_eq!(parse_u64(&cs(" 12")), Err(ValueFault::InvalidDigit));
    assert_eq!(parse_u64(&cs("1_000")), Err(ValueFault::InvalidDigit));
    assert_eq!(parse_u64(&cs("++1")), Err(ValueFault::InvalidDigit));
    assert_eq!(parse_u64(&cs("18446744073709551616")), Err(ValueFault::Overflow));
    assert_eq!(parse_u64(&cs("99999999999999999999999")), Err(ValueFault::Overflow));
    assert_eq!(parse_u64(&cs("99999999999999999999999x")), Err(ValueFault::InvalidDigit));
}

#[test]
fn parse_u64_agrees_with_std_on_what_is_a_number() {
    for s in ["", "0", "+0", "42", "-3", "4 2", "18446744073709551615", "18446744073709551616", "+", "x"] {
        assert_eq!(parse_u64(&cs(s)).ok(), s.parse::<u64>().ok(), "{:?}", s);
    }
}

#[test]
fn scanning_helpers_find_their_positions() {
    let v = cs("  ab\tcd \n");
    assert_eq!(after_spaces(&v, 0), 2);
    assert_eq!(after_token(&v, 2), 4);
    assert_eq!(after_spaces(&v, 4), 5);
    assert_eq!(after_token(&v, 5), 7);
    assert_eq!(after_spaces(&v, 7), 9);
    assert_eq!(after_token(&v, 9), 9);
    assert_eq!(position_of(&v, '\t', 0), 4);
    assert_eq!(position_of(&v, 'z', 0), 9);
    assert_eq!(position_of(&v, ' ', 2), 7);
}

#[test]
fn character_classes() {
    for c in [' ', '\t', '\n', '\r', '\x0C'] {
        assert!(char_is_space(c));
    }
    for c in ['a', '0', '\x0B', '\u{a0}'] {
        assert!(!char_is_space(c));
    }
    for c in '0'..='9' {
        assert!(char_is_digit(c));
    }
    for c in ['/', ':', 'a', '\u{663}'] {
        assert!(!char_is_digit(c));
    }
}

#[test]
fn digit_runs_and_their_values() {
    let v = cs("ab123cd");
    assert!(digits_only(&v, 2, 5));
    assert!(!digits_only(&v, 1, 5));
    assert!(digits_only(&v, 3, 3));
    assert_eq!(parse_u64(&v[2..5]), Ok(123));
    assert_eq!(parse_u64(&cs("1844674407370955161")), Ok(1844674407370955161));
}

#[test]
fn same_chars_compares_whole_slices() {
    assert!(same_chars(&cs("abc"), &cs("abc")));
    assert!(!same_chars(&cs("abc"), &cs("abd")));
    assert!(!same_chars(&cs("abc"), &cs("ab")));
    assert!(same_chars(&cs(""), &cs("")));
}
