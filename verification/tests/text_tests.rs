use bevy_demo::text::{join_text, format_i32, format_u64, parse_i32, replace, same_text, starts_with, suffix_from};

#[test]
fn parse_accepts_signed_decimals() {
    assert_eq!(parse_i32("42"), Some(42));
    assert_eq!(parse_i32("-17"), Some(-17));
    assert_eq!(parse_i32("+8"), Some(8));
    assert_eq!(parse_i32("007"), Some(7));
    assert_eq!(parse_i32("-0"), Some(0));
}

#[test]
fn parse_accepts_the_extremes() {
    assert_eq!(parse_i32("2147483647"), Some(i32::MAX));
    assert_eq!(parse_i32("-2147483648"), Some(i32::MIN));
}

#[test]
fn parse_refuses_what_str_parse_refuses() {
    for bad in ["", "+", "-", "12a", " 1", "1 ", "1.5", "--1", "+-1", "2147483648", "-2147483649", "99999999999999999999", "٣"] {
        assert_eq!(parse_i32(bad), None, "{bad:?}");
        assert!(bad.parse::<i32>().is_err(), "{bad:?}");
    }
}

#[test]
fn parse_agrees_with_std_on_samples() {
    for s in ["0", "1", "-1", "123456", "-654321", "+0", "000", "2147483646"] {
        assert_eq!(parse_i32(s), s.parse::<i32>().ok(), "{s:?}");
    }
}

#[test]
fn format_writes_decimal_text() {
    assert_eq!(format_i32(0), "0");
    assert_eq!(format_i32(-45), "-45");
    assert_eq!(format_i32(i32::MIN), "-2147483648");
    assert_eq!(format_i32(i32::MAX), "2147483647");
    assert_eq!(format_u64(1234567890123), "1234567890123");
}

#[test]
fn format_then_parse_gives_the_number_back() {
    for v in [0, 1, -1, 10, -10, 99, 1000, i32::MAX, i32::MIN, 31337] {
        assert_eq!(parse_i32(&format_i32(v)), Some(v));
    }
}

#[test]
fn replace_replaces_every_occurrence() {
    assert_eq!(replace("Blue Buildings/Blue.png", "Blue", "Black"), "Black Buildings/Black.png");
    assert_eq!(replace("aaa", "aa", "b"), "ba");
    assert_eq!(replace("no match", "xyz", "q"), "no match");
    assert_eq!(replace("", "a", "b"), "");
}

#[test]
fn replace_by_itself_changes_nothing() {
    let s = "Units/Blue Units/Archer/Arrow.png";
    assert_eq!(replace(s, "Blue", "Blue"), s);
}

#[test]
fn prefix_and_equality_tests() {
    assert!(starts_with("name Bob", "name "));
    assert!(!starts_with("nam", "name "));
    assert!(same_text("abc", "abc"));
    assert!(!same_text("abc", "abd"));
    assert_eq!(suffix_from("name Bob", 5), "Bob");
    assert_eq!(join_text("tower_", "3"), "tower_3");
}
