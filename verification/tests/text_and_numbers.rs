use bookstore::calendar::Date;
use bookstore::db::query::Expiry;
use bookstore::numeral::{parse_i32, parse_u32, render_i32, render_u32, render_u64};
use bookstore::numeric::Numeric;

fn expiry(text: &str) -> Option<(u32, u32)> {
    Expiry::from_str(text).map(|e| (e.month(), e.year()))
}

#[test]
fn expiry_reads_month_and_year() {
    assert_eq!(expiry("12/25"), Some((12, 25)));
    assert_eq!(expiry("1/21"), Some((1, 21)));
    assert_eq!(expiry("01/21"), Some((1, 21)));
    assert_eq!(expiry("+7/+30"), Some((7, 30)));
    assert_eq!(expiry("12/2025"), Some((12, 2025)));
    assert_eq!(expiry("12/4294967295"), Some((12, 4294967295)));
}

#[test]
fn expiry_rejects_what_is_out_of_range_or_malformed() {
    assert_eq!(expiry("0/25"), None);
    assert_eq!(expiry("13/25"), None);
    assert_eq!(expiry("12/20"), None);
    assert_eq!(expiry("12/4294967296"), None);
    assert_eq!(expiry("12/25/1"), None);
    assert_eq!(expiry("12/25/"), None);
    assert_eq!(expiry("12"), None);
    assert_eq!(expiry(""), None);
    assert_eq!(expiry("/"), None);
    assert_eq!(expiry("/25"), None);
    assert_eq!(expiry("12/"), None);
    assert_eq!(expiry(" 12/25"), None);
    assert_eq!(expiry("12/25 "), None);
    assert_eq!(expiry("-1/25"), None);
    assert_eq!(expiry("ab/cd"), None);
    assert_eq!(expiry("１２/25"), None);
}

#[test]
fn expiry_text_reads_back() {
    let e = Expiry::from_str("03/25").unwrap();
    assert_eq!(e.to_string(), "3/25");
    assert_eq!(Expiry::from_str(&e.to_string()), Some(e));
    let late = Expiry::from_str("12/4294967295").unwrap();
    assert_eq!(late.to_string(), "12/4294967295");
}

#[test]
fn unsigned_numbers_are_read_as_std_reads_them() {
    for text in ["0", "7", "007", "+5", "4294967295", "4294967296", "", "+", "-1", "1 ", "1a", "99999999999999999999"] {
        assert_eq!(parse_u32(text), text.parse::<u32>().ok(), "{:?}", text);
    }
}

#[test]
fn signed_numbers_are_read_as_std_reads_them() {
    for text in ["0", "-0", "+0", "42", "-42", "2147483647", "2147483648", "-2147483648", "-2147483649", "", "-", "+", "--1", "1-", " 1"] {
        assert_eq!(parse_i32(text), text.parse::<i32>().ok(), "{:?}", text);
    }
}

#[test]
fn numbers_are_written_in_decimal() {
    assert_eq!(render_u32(0), "0");
    assert_eq!(render_u32(9), "9");
    assert_eq!(render_u32(10), "10");
    assert_eq!(render_u32(4294967295), "4294967295");
    assert_eq!(render_u64(18446744073709551615), "18446744073709551615");
    assert_eq!(render_i32(0), "0");
    assert_eq!(render_i32(-1), "-1");
    assert_eq!(render_i32(-2147483648), "-2147483648");
    assert_eq!(render_i32(2147483647), "2147483647");
}

#[test]
fn decimal_text_is_read_into_mantissa_and_scale() {
    let price = Numeric::from_str("19.99").unwrap();
    assert_eq!((price.mantissa(), price.scale()), (1999, 2));
    let whole = Numeric::from_str("5").unwrap();
    assert_eq!((whole.mantissa(), whole.scale()), (5, 0));
    let negative = Numeric::from_str("-0.5").unwrap();
    assert_eq!((negative.mantissa(), negative.scale()), (-5, 1));
    assert_eq!(Numeric::from_str("abc"), None);
    assert_eq!(Numeric::from_str(""), None);
}

#[test]
fn decimals_are_compared_as_numbers() {
    let a = Numeric::new(150, 2).unwrap();
    let b = Numeric::new(15, 1).unwrap();
    let c = Numeric::new(151, 2).unwrap();
    let d = Numeric::new(-151, 2).unwrap();
    assert!(a.at_most(&b) && b.at_most(&a));
    assert!(a.at_least(&b) && b.at_least(&a));
    assert!(a.at_most(&c) && !c.at_most(&a));
    assert!(c.at_least(&a) && !a.at_least(&c));
    assert!(d.at_most(&a) && !a.at_most(&d));
    assert_ne!(a, b);
    let big = Numeric::new(79228162514264337593543950335, 0).unwrap();
    let small = Numeric::new(1, 28).unwrap();
    assert!(small.at_most(&big) && !big.at_most(&small));
}

#[test]
fn decimals_have_bounded_parts() {
    assert!(Numeric::new(0, 28).is_some());
    assert!(Numeric::new(0, 29).is_none());
    assert!(Numeric::new(79228162514264337593543950335, 0).is_some());
    assert!(Numeric::new(79228162514264337593543950336, 0).is_none());
    assert!(Numeric::new(-79228162514264337593543950335, 0).is_some());
    assert!(Numeric::new(-79228162514264337593543950336, 0).is_none());
}

#[test]
fn dates_are_days_of_the_calendar() {
    assert!(Date::new(2021, 12, 9).is_some());
    assert!(Date::new(2020, 2, 29).is_some());
    assert!(Date::new(2021, 2, 29).is_none());
    assert!(Date::new(1900, 2, 29).is_none());
    assert!(Date::new(2000, 2, 29).is_some());
    assert!(Date::new(-4, 2, 29).is_some());
    assert!(Date::new(2021, 4, 31).is_none());
    assert!(Date::new(2021, 0, 1).is_none());
    assert!(Date::new(2021, 13, 1).is_none());
    assert!(Date::new(2021, 1, 0).is_none());
    assert!(Date::new(262142, 12, 31).is_some());
    assert!(Date::new(262143, 1, 1).is_none());
    assert!(Date::new(-262143, 1, 1).is_some());
    assert!(Date::new(-262144, 12, 31).is_none());
    let d = Date::new(2021, 12, 9).unwrap();
    assert_eq!((d.year(), d.month(), d.day()), (2021, 12, 9));
}

#[test]
fn dates_are_written_year_month_day() {
    assert_eq!(Date::new(2021, 12, 9).unwrap().to_string(), "2021-12-09");
    assert_eq!(Date::new(2021, 1, 31).unwrap().to_string(), "2021-01-31");
    assert_eq!(Date::new(0, 1, 1).unwrap().to_string(), "0000-01-01");
    assert_eq!(Date::new(987, 6, 5).unwrap().to_string(), "0987-06-05");
    assert_eq!(Date::new(9999, 12, 31).unwrap().to_string(), "9999-12-31");
    assert_eq!(Date::new(10000, 1, 1).unwrap().to_string(), "+10000-01-01");
    assert_eq!(Date::new(-5, 3, 4).unwrap().to_string(), "-0005-03-04");
    assert_eq!(Date::new(-12345, 3, 4).unwrap().to_string(), "-12345-03-04");
}

#[test]
fn today_is_a_day_of_the_calendar() {
    let today = Date::today();
    assert_eq!(Date::new(today.year(), today.month(), today.day()), Some(today));
    assert!(today.year() >= 2024);
}
