use lib::decimal::{parse_i32, push_i32_decimal};

fn show(n: i32) -> String {
    let mut s = String::new();
    push_i32_decimal(&mut s, n);
    s
}

#[test]
fn parse_i32_accepts_from_str_grammar() {
    assert_eq!(parse_i32("22000"), Some(22000));
    assert_eq!(parse_i32("+5"), Some(5));
    assert_eq!(parse_i32("-0"), Some(0));
    assert_eq!(parse_i32("007"), Some(7));
    assert_eq!(parse_i32("2147483647"), Some(i32::MAX));
    assert_eq!(parse_i32("-2147483648"), Some(i32::MIN));
}

#[test]
fn parse_i32_rejects_others() {
    for s in ["", "-", "+", "2147483648", "-2147483649", "12a", "22_000", "22000i32", " 1", "99999999999999999999"] {
        assert_eq!(parse_i32(s), None, "{s}");
        assert_eq!(s.parse::<i32>().ok(), None, "{s}");
    }
}

#[test]
fn parse_i32_matches_std() {
    for s in ["0", "1", "-1", "+12", "65535", "-2147483648", "2147483647", "42"] {
        assert_eq!(parse_i32(s), s.parse::<i32>().ok());
    }
}

#[test]
fn decimal_display() {
    assert_eq!(show(0), "0");
    assert_eq!(show(-5), "-5");
    assert_eq!(show(22100), "22100");
    assert_eq!(show(i32::MIN), "-2147483648");
    assert_eq!(show(i32::MAX), "2147483647");
}

#[test]
fn decimal_roundtrip() {
    for n in [0, 1, -1, 9, 10, -10, 22000, 41000, i32::MIN, i32::MAX, 123456789] {
        assert_eq!(parse_i32(&show(n)), Some(n));
        assert_eq!(show(n), n.to_string());
    }
}
