use liquid_values::text::{chars_of, decimal_string, parse_integer};
use liquid_values::{Error, Path, Scalar};

#[test]
fn decimal_numerals() {
    assert_eq!(decimal_string(0), "0");
    assert_eq!(decimal_string(7), "7");
    assert_eq!(decimal_string(10), "10");
    assert_eq!(decimal_string(-1), "-1");
    assert_eq!(decimal_string(1234567890), "1234567890");
    assert_eq!(decimal_string(i64::MAX), i64::MAX.to_string());
    assert_eq!(decimal_string(i64::MIN), i64::MIN.to_string());
}

#[test]
fn strict_integers() {
    assert_eq!(parse_integer("0"), Some(0));
    assert_eq!(parse_integer("42"), Some(42));
    assert_eq!(parse_integer("-42"), Some(-42));
    assert_eq!(parse_integer("+42"), Some(42));
    assert_eq!(parse_integer("007"), Some(7));
    assert_eq!(parse_integer("-0"), Some(0));
    assert_eq!(parse_integer("9223372036854775807"), Some(i64::MAX));
    assert_eq!(parse_integer("-9223372036854775808"), Some(i64::MIN));
    assert_eq!(parse_integer("9223372036854775808"), None);
    assert_eq!(parse_integer("-9223372036854775809"), None);
    assert_eq!(parse_integer("99999999999999999999999999999999999999999"), None);
    assert_eq!(parse_integer(""), None);
    assert_eq!(parse_integer("-"), None);
    assert_eq!(parse_integer("+"), None);
    assert_eq!(parse_integer("--1"), None);
    assert_eq!(parse_integer(" 1"), None);
    assert_eq!(parse_integer("1 "), None);
    assert_eq!(parse_integer("1.0"), None);
    assert_eq!(parse_integer("1e3"), None);
    assert_eq!(parse_integer("size"), None);
    assert_eq!(parse_integer("\u{663}"), None);
}

#[test]
fn strict_integers_agree_with_std() {
    for s in ["12", "-12", "+12", "", "-", "0x10", "1_000", "00", "18446744073709551616"] {
        assert_eq!(parse_integer(s), s.parse::<i64>().ok());
    }
}

#[test]
fn scalar_to_integer_strict() {
    assert_eq!(Scalar::Integer(-3).to_integer_strict(), Some(-3));
    assert_eq!(Scalar::new("12").to_integer_strict(), Some(12));
    assert_eq!(Scalar::new("first").to_integer_strict(), None);
    assert_eq!(Scalar::Bool(true).to_integer_strict(), None);
}

#[test]
fn path_joins_segments_with_dots() {
    let mut path = Path::with_index(Scalar::new("a"));
    assert_eq!(path.to_string(), "a");
    path.push(Scalar::new(""));
    path.push(Scalar::Bool(true));
    assert_eq!(path.to_string(), "a..true");
}

#[test]
fn error_shows_its_trail() {
    let err = Error::with_msg("Invalid input");
    assert_eq!(err.to_string(), "liquid: Invalid input\n");
    let err = err
        .context("cause", "test")
        .trace("Filter error")
        .context("filter", "upcase")
        .context("input", "1")
        .trace("{% if x %}");
    assert_eq!(
        err.to_string(),
        "liquid: Invalid input\n  with:\n    cause=test\nfrom: Filter error\n  with:\n    filter=upcase\n    input=1\nfrom: {% if x %}\n"
    );
}

#[test]
fn chars_in_order() {
    let chars = chars_of("h\u{e9}llo \u{1f496}");
    assert_eq!(chars, vec!['h', '\u{e9}', 'l', 'l', 'o', ' ', '\u{1f496}']);
    assert!(chars_of("").is_empty());
}
