use beans_rs::decimal::{parse_version, to_decimal};

#[test]
fn to_decimal_writes_plain_digits() {
    assert_eq!(to_decimal(0), "0");
    assert_eq!(to_decimal(7), "7");
    assert_eq!(to_decimal(10), "10");
    assert_eq!(to_decimal(1203), "1203");
    assert_eq!(to_decimal(usize::MAX), usize::MAX.to_string());
}

#[test]
fn parse_version_reads_digits() {
    assert_eq!(parse_version("5"), Some(5));
    assert_eq!(parse_version("0"), Some(0));
    assert_eq!(parse_version("007"), Some(7));
    assert_eq!(parse_version("+12"), Some(12));
    assert_eq!(parse_version("1203"), Some(1203));
}

#[test]
fn parse_version_refuses_what_is_no_number() {
    assert_eq!(parse_version(""), None);
    assert_eq!(parse_version("+"), None);
    assert_eq!(parse_version("-1"), None);
    assert_eq!(parse_version("5\n"), None);
    assert_eq!(parse_version(" 5"), None);
    assert_eq!(parse_version("5a"), None);
    assert_eq!(parse_version("++5"), None);
    assert_eq!(parse_version("٥"), None);
}

#[test]
fn parse_version_refuses_what_does_not_fit() {
    let max = usize::MAX.to_string();
    assert_eq!(parse_version(&max), Some(usize::MAX));
    let mut too_large = max.clone();
    too_large.push('0');
    assert_eq!(parse_version(&too_large), None);
    assert_eq!(parse_version("99999999999999999999999999"), None);
}

#[test]
fn parse_version_agrees_with_the_standard_parser() {
    for text in ["", "+", "-", "0", "+0", "-0", "12", "012", "1_2", "1 2", "18446744073709551615", "18446744073709551616"] {
        assert_eq!(parse_version(text), text.parse::<usize>().ok());
    }
}

#[test]
fn decimal_round_trip() {
    for version in [0usize, 1, 9, 10, 99, 100, 65535, usize::MAX] {
        assert_eq!(parse_version(&to_decimal(version)), Some(version));
    }
}
