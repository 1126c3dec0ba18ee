use chrono::Datelike;
use facture::date::Date;
use facture::text::{
    decimal_text, digit_text, signed_decimal_text, spaced_text, zero_padded_text,
};

fn date(year: i32, month: u32, day: u32) -> Date {
    Date { year, month, day }
}

#[test]
fn the_text_of_a_date() {
    assert_eq!(date(2015, 9, 5).to_text(), "2015-09-05");
    assert_eq!(date(0, 1, 1).to_text(), "0000-01-01");
    assert_eq!(date(9999, 12, 31).to_text(), "9999-12-31");
    assert_eq!(date(-1, 1, 1).to_text(), "-0001-01-01");
    assert_eq!(date(10000, 12, 31).to_text(), "+10000-12-31");
    assert_eq!(date(2024, 2, 29).to_text(), "2024-02-29");
}

#[test]
fn a_date_that_the_calendar_lacks_has_no_text() {
    assert_eq!(date(2023, 2, 29).to_text(), "");
    assert_eq!(date(2023, 13, 1).to_text(), "");
    assert_eq!(date(2023, 0, 1).to_text(), "");
    assert_eq!(date(2023, 4, 31).to_text(), "");
    assert_eq!(date(2023, 4, 0).to_text(), "");
    assert_eq!(date(400000, 1, 1).to_text(), "");
    assert_eq!(date(i32::MIN, 1, 1).to_text(), "");
}

#[test]
fn the_text_of_a_date_is_the_one_chrono_writes() {
    let days = [(2015, 9, 5), (0, 1, 1), (9999, 12, 31), (-1, 1, 1), (10000, 12, 31), (-45, 3, 15)];
    for (y, m, d) in days {
        let theirs = chrono::NaiveDate::from_ymd_opt(y, m, d).unwrap();
        assert_eq!(date(y, m, d).to_text(), theirs.to_string());
    }
}

#[test]
fn a_date_is_read_from_its_text() {
    assert_eq!(Date::from_text("2024-02-29"), Some(date(2024, 2, 29)));
    assert_eq!(Date::from_text("0000-01-01"), Some(date(0, 1, 1)));
    assert_eq!(Date::from_text("9999-12-31"), Some(date(9999, 12, 31)));
    assert_eq!(Date::from_text("2015-09-18"), Some(date(2015, 9, 18)));
    assert_eq!(Date::from_text("+12345-6-7"), Some(date(12345, 6, 7)));
    assert_eq!(Date::from_text("2024-2-3"), Some(date(2024, 2, 3)));
    assert_eq!(Date::from_text(&date(1987, 6, 5).to_text()), Some(date(1987, 6, 5)));
    assert_eq!(Date::from_text(&date(-44, 3, 15).to_text()), Some(date(-44, 3, 15)));
    assert_eq!(Date::from_text(&date(10000, 1, 1).to_text()), Some(date(10000, 1, 1)));
}

#[test]
fn a_text_that_names_no_date_is_refused() {
    assert_eq!(Date::from_text("foo"), None);
    assert_eq!(Date::from_text(""), None);
    assert_eq!(Date::from_text("2023-02-29"), None);
    assert_eq!(Date::from_text("2024-13-01"), None);
    assert_eq!(Date::from_text("2024-00-10"), None);
    assert_eq!(Date::from_text("2024-04-31"), None);
    assert_eq!(Date::from_text("2024-04-00"), None);
    assert_eq!(Date::from_text("2024/01/05"), None);
    assert_eq!(Date::from_text("20x4-01-05"), None);
    assert_eq!(Date::from_text("tomorrow"), None);
}

#[test]
fn a_text_is_read_as_chrono_reads_it() {
    let texts = [
        "2024-02-29", "2024-2-3", "+12345-6-7", "2024-01-050", " 2024-01-05", "2024-01-05 ",
        "2024 - 01 - 05", "24-1-5", "-0001-01-01", "2023-02-29", "2024-1-05x", "",
    ];
    for text in texts {
        let theirs = text
            .parse::<chrono::NaiveDate>()
            .ok()
            .map(|d| date(d.year(), d.month(), d.day()));
        assert_eq!(Date::from_text(text), theirs);
    }
}

#[test]
fn the_dates_that_can_be_written_and_read_back() {
    assert!(date(2024, 2, 29).is_valid());
    assert!(date(2000, 2, 29).is_valid());
    assert!(!date(1900, 2, 29).is_valid());
    assert!(!date(2023, 2, 29).is_valid());
    assert!(date(2023, 2, 28).is_valid());
    assert!(date(2023, 12, 31).is_valid());
    assert!(!date(2023, 11, 31).is_valid());
    assert!(!date(2023, 0, 1).is_valid());
    assert!(!date(2023, 13, 1).is_valid());
    assert!(!date(2023, 1, 0).is_valid());
    assert!(!date(2023, 1, 32).is_valid());
    assert!(date(0, 1, 1).is_valid());
    assert!(date(-1, 1, 1).is_valid());
    assert!(date(10000, 1, 1).is_valid());
    assert!(!date(400000, 1, 1).is_valid());
    assert!(Date::default().is_valid());
    assert!(Date::today().is_valid());
    for month in [1, 3, 5, 7, 8, 10, 12] {
        assert!(date(2023, month, 31).is_valid());
    }
    for month in [4, 6, 9, 11] {
        assert!(date(2023, month, 30).is_valid());
        assert!(!date(2023, month, 31).is_valid());
    }
}

#[test]
fn the_default_date() {
    assert_eq!(Date::default(), date(1970, 1, 1));
    assert_eq!(Date::default().to_text(), chrono::NaiveDate::default().to_string());
}

#[test]
fn days_are_added_by_the_calendar() {
    assert_eq!(date(2022, 2, 20).plus_days(9), Some(date(2022, 3, 1)));
    assert_eq!(date(2022, 7, 31).plus_days(2), Some(date(2022, 8, 2)));
    assert_eq!(date(2024, 2, 15).plus_days(15), Some(date(2024, 3, 1)));
    assert_eq!(date(2023, 12, 31).plus_days(1), Some(date(2024, 1, 1)));
    assert_eq!(date(2022, 7, 31).plus_days(0), Some(date(2022, 7, 31)));
    assert_eq!(date(2022, 7, 31).plus_days(1000000000000), None);
    assert_eq!(date(2023, 2, 29).plus_days(1), None);
    assert_eq!(date(400000, 1, 1).plus_days(1), None);
}

#[test]
fn today_is_the_day_on_the_clock() {
    let before = chrono::Local::now().date_naive();
    let today = Date::today();
    let after = chrono::Local::now().date_naive();
    assert!(1 <= today.month && today.month <= 12);
    assert!(1 <= today.day && today.day <= 31);
    let is = |d: chrono::NaiveDate| date(d.year(), d.month(), d.day()) == today;
    assert!(is(before) || is(after));
}

#[test]
fn numerals() {
    assert_eq!(decimal_text(0), "0");
    assert_eq!(decimal_text(7), "7");
    assert_eq!(decimal_text(10), "10");
    assert_eq!(decimal_text(1234567890), "1234567890");
    assert_eq!(decimal_text(u64::MAX), "18446744073709551615");
    assert_eq!(signed_decimal_text(0), "0");
    assert_eq!(signed_decimal_text(-5), "-5");
    assert_eq!(signed_decimal_text(2024), "2024");
    assert_eq!(signed_decimal_text(i32::MIN), "-2147483648");
    assert_eq!(signed_decimal_text(i32::MAX), "2147483647");
}

#[test]
fn numerals_with_zeros_in_front() {
    assert_eq!(zero_padded_text(1, 5), "00001");
    assert_eq!(zero_padded_text(0, 5), "00000");
    assert_eq!(zero_padded_text(99999, 5), "99999");
    assert_eq!(zero_padded_text(123456, 5), "123456");
    assert_eq!(zero_padded_text(42, 0), "42");
    assert_eq!(zero_padded_text(42, 2), "42");
    assert_eq!(zero_padded_text(7, 2), "07");
    assert_eq!(zero_padded_text(1, 5), format!("{:05}", 1));
    assert_eq!(zero_padded_text(u64::MAX, 25), format!("{:025}", u64::MAX));
}

#[test]
fn digits() {
    for d in 0..10u64 {
        assert_eq!(digit_text(d), format!("{}", d));
    }
}

#[test]
fn two_texts_with_a_space_between() {
    assert_eq!(spaced_text(&"Ada".to_string(), &"Lovelace".to_string()), "Ada Lovelace");
    assert_eq!(spaced_text(&String::new(), &String::new()), " ");
}
