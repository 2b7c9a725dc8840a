use x265ify::text::{str_eq, trim, u8_to_string};

#[test]
fn str_eq_equal_strings() {
    assert!(str_eq("abc", "abc"));
    assert!(str_eq("", ""));
    assert!(str_eq("hevc", "hevc"));
}

#[test]
fn str_eq_different_strings() {
    assert!(!str_eq("abc", "abd"));
    assert!(!str_eq("abc", "ab"));
    assert!(!str_eq("", "a"));
    assert!(!str_eq("hevc", "h264"));
}

#[test]
fn trim_strips_surrounding_whitespace() {
    assert_eq!(trim("  hevc\n"), "hevc");
    assert_eq!(trim("h264"), "h264");
    assert_eq!(trim("\t h264 \r\n"), "h264");
}

#[test]
fn trim_empty_and_all_whitespace() {
    assert_eq!(trim(""), "");
    assert_eq!(trim(" \t\r\n "), "");
}

#[test]
fn trim_keeps_inner_whitespace() {
    assert_eq!(trim(" a b "), "a b");
}

#[test]
fn decimal_one_digit() {
    assert_eq!(u8_to_string(0), "0");
    assert_eq!(u8_to_string(9), "9");
}

#[test]
fn decimal_two_digits() {
    assert_eq!(u8_to_string(10), "10");
    assert_eq!(u8_to_string(22), "22");
    assert_eq!(u8_to_string(99), "99");
}

#[test]
fn decimal_three_digits() {
    assert_eq!(u8_to_string(100), "100");
    assert_eq!(u8_to_string(201), "201");
    assert_eq!(u8_to_string(255), "255");
}
