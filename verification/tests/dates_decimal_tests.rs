use elerem::dates::{parse_iso_date, Date};
use elerem::decimal::{parse_decimal, Decimal};

#[test]
fn parses_ordinary_dates() {
    assert_eq!(
        parse_iso_date("2024-01-31"),
        Some(Date { year: 2024, month: 1, day: 31 })
    );
    assert_eq!(
        parse_iso_date("0001-12-01"),
        Some(Date { year: 1, month: 12, day: 1 })
    );
}

#[test]
fn knows_leap_years() {
    assert_eq!(
        parse_iso_date("2024-02-29"),
        Some(Date { year: 2024, month: 2, day: 29 })
    );
    assert_eq!(parse_iso_date("2023-02-29"), None);
    assert_eq!(
        parse_iso_date("2000-02-29"),
        Some(Date { year: 2000, month: 2, day: 29 })
    );
    assert_eq!(parse_iso_date("1900-02-29"), None);
}

#[test]
fn rejects_bad_dates() {
    assert_eq!(parse_iso_date("2024-13-01"), None);
    assert_eq!(parse_iso_date("2024-00-10"), None);
    assert_eq!(parse_iso_date("2024-04-31"), None);
    assert_eq!(parse_iso_date("2024-06-00"), None);
    assert_eq!(parse_iso_date("2024-1-01"), None);
    assert_eq!(parse_iso_date("24-01-01"), None);
    assert_eq!(parse_iso_date("2024/01/01"), None);
    assert_eq!(parse_iso_date(""), None);
}

#[test]
fn parses_decimals() {
    assert_eq!(
        parse_decimal("123.45"),
        Some(Decimal { mantissa: 12345, scale: 2 })
    );
    assert_eq!(parse_decimal("10"), Some(Decimal { mantissa: 10, scale: 0 }));
    assert_eq!(parse_decimal("-0.5"), Some(Decimal { mantissa: -5, scale: 1 }));
    assert_eq!(parse_decimal("+7.25"), Some(Decimal { mantissa: 725, scale: 2 }));
    assert_eq!(parse_decimal("0.00"), Some(Decimal { mantissa: 0, scale: 2 }));
}

#[test]
fn rejects_bad_decimals() {
    assert_eq!(parse_decimal(""), None);
    assert_eq!(parse_decimal("."), None);
    assert_eq!(parse_decimal("1."), None);
    assert_eq!(parse_decimal(".5"), None);
    assert_eq!(parse_decimal("1.2.3"), None);
    assert_eq!(parse_decimal("12x"), None);
    assert_eq!(parse_decimal("-"), None);
}

#[test]
fn decimal_mantissa_bounds() {
    assert_eq!(
        parse_decimal("9223372036854775807"),
        Some(Decimal { mantissa: i64::MAX, scale: 0 })
    );
    assert_eq!(parse_decimal("9223372036854775808"), None);
    assert_eq!(
        parse_decimal("-92233720368547758.08"),
        Some(Decimal { mantissa: i64::MIN, scale: 2 })
    );
    assert_eq!(parse_decimal("-92233720368547758.09"), None);
}
