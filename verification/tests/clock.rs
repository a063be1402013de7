use chrono::{Datelike, Timelike};
use quickbooks_sync::clock::LocalTime;

fn stamp(year: i32, month: u32, day: u32, hour: u32, minute: u32) -> String {
    LocalTime::new(year, month, day, hour, minute).unwrap().timestamp()
}

#[test]
fn timestamp_pads_every_field() {
    assert_eq!(stamp(2024, 3, 7, 9, 5), "07-03-2024:09:05");
    assert_eq!(stamp(1999, 12, 31, 23, 59), "31-12-1999:23:59");
    assert_eq!(stamp(2025, 1, 1, 0, 0), "01-01-2025:00:00");
}

#[test]
fn timestamp_is_not_the_pattern_it_was_written_with() {
    let text = stamp(2026, 10, 28, 18, 45);
    assert_eq!(text, "28-10-2026:18:45");
    assert_ne!(text, "%d-%m-%Y:%H:%M");
}

#[test]
fn timestamp_has_the_expected_shape() {
    let text = stamp(2031, 10, 28, 14, 30);
    let chars: Vec<char> = text.chars().collect();
    assert_eq!(chars.len(), 16);
    for (i, c) in chars.iter().enumerate() {
        match i {
            2 | 5 => assert_eq!(*c, '-'),
            10 | 13 => assert_eq!(*c, ':'),
            _ => assert!(c.is_ascii_digit()),
        }
    }
}

#[test]
fn early_years_are_padded_to_four_digits() {
    assert_eq!(stamp(0, 1, 1, 0, 0), "01-01-0000:00:00");
    assert_eq!(stamp(7, 2, 3, 4, 5), "03-02-0007:04:05");
    assert_eq!(stamp(987, 6, 5, 4, 3), "05-06-0987:04:03");
    assert_eq!(stamp(9999, 12, 31, 23, 59), "31-12-9999:23:59");
}

#[test]
fn years_outside_four_digits_carry_a_sign() {
    assert_eq!(stamp(10000, 1, 2, 3, 4), "02-01-+10000:03:04");
    assert_eq!(stamp(-1, 1, 2, 3, 4), "02-01--0001:03:04");
    assert_eq!(stamp(-44, 3, 15, 12, 0), "15-03--0044:12:00");
    assert_eq!(stamp(-999, 1, 1, 0, 0), "01-01--0999:00:00");
    assert_eq!(stamp(-12345, 1, 1, 0, 0), "01-01--12345:00:00");
    assert_eq!(stamp(123456, 7, 8, 9, 10), "08-07-+123456:09:10");
    assert_eq!(stamp(262142, 12, 31, 23, 59), "31-12-+262142:23:59");
    assert_eq!(stamp(-262143, 1, 1, 0, 0), "01-01--262143:00:00");
}

#[test]
fn out_of_range_fields_are_rejected() {
    assert!(LocalTime::new(2024, 0, 1, 0, 0).is_none());
    assert!(LocalTime::new(2024, 13, 1, 0, 0).is_none());
    assert!(LocalTime::new(2024, 1, 0, 0, 0).is_none());
    assert!(LocalTime::new(2024, 1, 32, 0, 0).is_none());
    assert!(LocalTime::new(2024, 1, 1, 24, 0).is_none());
    assert!(LocalTime::new(2024, 1, 1, 0, 60).is_none());
    assert!(LocalTime::new(2024, 12, 31, 23, 59).is_some());
    assert!(LocalTime::new(2024, 1, 1, 0, 0).is_some());
}

#[test]
fn years_that_cannot_be_represented_are_rejected() {
    assert!(LocalTime::new(262142, 12, 31, 23, 59).is_some());
    assert!(LocalTime::new(262143, 1, 1, 0, 0).is_none());
    assert!(LocalTime::new(-262143, 1, 1, 0, 0).is_some());
    assert!(LocalTime::new(-262144, 12, 31, 23, 59).is_none());
    assert!(LocalTime::new(i32::MAX, 1, 1, 0, 0).is_none());
    assert!(LocalTime::new(i32::MIN, 1, 1, 0, 0).is_none());
}

fn month_length(year: i32, month: u32) -> u32 {
    let leap = year.rem_euclid(4) == 0 && (year.rem_euclid(100) != 0 || year.rem_euclid(400) == 0);
    match month {
        2 => {
            if leap {
                29
            } else {
                28
            }
        }
        4 | 6 | 9 | 11 => 30,
        _ => 31,
    }
}

#[test]
fn days_are_held_against_the_length_of_the_month() {
    assert!(LocalTime::new(2024, 2, 29, 0, 0).is_some());
    assert!(LocalTime::new(2024, 2, 30, 0, 0).is_none());
    assert!(LocalTime::new(2023, 2, 29, 0, 0).is_none());
    assert!(LocalTime::new(2023, 2, 28, 0, 0).is_some());
    assert!(LocalTime::new(1900, 2, 29, 0, 0).is_none());
    assert!(LocalTime::new(2000, 2, 29, 0, 0).is_some());
    assert!(LocalTime::new(2100, 2, 29, 0, 0).is_none());
    assert!(LocalTime::new(0, 2, 29, 0, 0).is_some());
    assert!(LocalTime::new(-4, 2, 29, 0, 0).is_some());
    assert!(LocalTime::new(-1, 2, 29, 0, 0).is_none());
    assert!(LocalTime::new(-100, 2, 29, 0, 0).is_none());
    assert!(LocalTime::new(-400, 2, 29, 0, 0).is_some());
    assert!(LocalTime::new(2023, 4, 31, 0, 0).is_none());
    assert!(LocalTime::new(2023, 4, 30, 0, 0).is_some());
    assert!(LocalTime::new(2023, 6, 31, 0, 0).is_none());
    assert!(LocalTime::new(2023, 9, 31, 0, 0).is_none());
    assert!(LocalTime::new(2023, 11, 31, 0, 0).is_none());
    assert!(LocalTime::new(2023, 12, 31, 0, 0).is_some());
}

#[test]
fn every_day_of_many_years_exists_exactly_when_the_calendar_has_it() {
    let years = [-262143, -2001, -2000, -401, -400, -101, -100, -5, -4, -1, 0, 1, 4, 100, 400,
        1582, 1899, 1900, 1999, 2000, 2023, 2024, 2100, 2400, 9999, 10000, 262142];
    for year in years {
        for month in 1..=12u32 {
            for day in 0..=32u32 {
                let exists = day >= 1 && day <= month_length(year, month);
                assert_eq!(
                    LocalTime::new(year, month, day, 12, 0).is_some(),
                    exists,
                    "{}-{}-{}",
                    year,
                    month,
                    day
                );
            }
        }
    }
}

#[test]
fn getters_return_the_fields() {
    let t = LocalTime::new(2024, 3, 7, 9, 5).unwrap();
    assert_eq!(t.year(), 2024);
    assert_eq!(t.month(), 3);
    assert_eq!(t.day(), 7);
    assert_eq!(t.hour(), 9);
    assert_eq!(t.minute(), 5);
}

#[test]
fn a_clock_reading_becomes_a_local_time() {
    let now = chrono::Local::now();
    let t = LocalTime::new(now.year(), now.month(), now.day(), now.hour(), now.minute()).unwrap();
    assert_eq!(t.timestamp(), now.format("%d-%m-%Y:%H:%M").to_string());
}
