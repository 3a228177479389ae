use cef::values::{cef_time_to_utc_millis, Time};

fn t(year: i32, month: i32, day: i32, hour: i32, minute: i32, second: i32, millisecond: i32) -> Time {
    Time { year, month, day_of_week: 0, day_of_month: day, hour, minute, second, millisecond }
}

#[test]
fn cef_time_converts_to_epoch_millis() {
    assert_eq!(cef_time_to_utc_millis(t(1970, 1, 1, 0, 0, 0, 0)), Some(0));
    assert_eq!(cef_time_to_utc_millis(t(1970, 1, 1, 0, 0, 1, 444)), Some(1_444));
    assert_eq!(cef_time_to_utc_millis(t(2001, 9, 9, 1, 46, 40, 555)), Some(1_000_000_000_555));
    assert_eq!(cef_time_to_utc_millis(t(1969, 12, 31, 23, 59, 59, 0)), Some(-1_000));
    // The day of the week is not read.
    let mut with_weekday = t(2001, 9, 9, 1, 46, 40, 555);
    with_weekday.day_of_week = 5;
    assert_eq!(cef_time_to_utc_millis(with_weekday), Some(1_000_000_000_555));
}

#[test]
fn cef_time_rejects_invalid_dates_and_times() {
    assert_eq!(cef_time_to_utc_millis(t(2015, 2, 29, 0, 0, 0, 0)), None);
    assert!(cef_time_to_utc_millis(t(2016, 2, 29, 0, 0, 0, 0)).is_some());
    assert!(cef_time_to_utc_millis(t(2000, 2, 29, 0, 0, 0, 0)).is_some());
    assert_eq!(cef_time_to_utc_millis(t(1900, 2, 29, 0, 0, 0, 0)), None);
    assert_eq!(cef_time_to_utc_millis(t(2015, 4, 31, 0, 0, 0, 0)), None);
    assert_eq!(cef_time_to_utc_millis(t(2015, 0, 14, 0, 0, 0, 0)), None);
    assert_eq!(cef_time_to_utc_millis(t(2015, 13, 14, 0, 0, 0, 0)), None);
    assert_eq!(cef_time_to_utc_millis(t(2015, -1, 14, 0, 0, 0, 0)), None);
    assert_eq!(cef_time_to_utc_millis(t(2015, 3, 14, 24, 0, 0, 0)), None);
    assert_eq!(cef_time_to_utc_millis(t(2015, 3, 14, 23, 60, 0, 0)), None);
    assert_eq!(cef_time_to_utc_millis(t(2015, 3, 14, 23, 59, 60, 0)), None);
    assert_eq!(cef_time_to_utc_millis(t(2015, 3, 14, -1, 59, 0, 0)), None);
    assert_eq!(cef_time_to_utc_millis(t(2015, 3, 14, 23, 59, 59, 2_000)), None);
    assert_eq!(cef_time_to_utc_millis(t(2015, 3, 14, 23, 59, 58, 1_500)), None);
    assert_eq!(cef_time_to_utc_millis(t(400_000, 1, 1, 0, 0, 0, 0)), None);
    assert_eq!(cef_time_to_utc_millis(t(-400_000, 1, 1, 0, 0, 0, 0)), None);
}

#[test]
fn cef_time_accepts_leap_seconds_and_year_limits() {
    assert!(cef_time_to_utc_millis(t(2015, 6, 30, 23, 59, 59, 1_999)).is_some());
    assert!(cef_time_to_utc_millis(t(-4, 2, 29, 0, 0, 0, 0)).is_some());
    assert!(cef_time_to_utc_millis(t(262_142, 12, 31, 23, 59, 59, 999)).is_some());
    assert_eq!(cef_time_to_utc_millis(t(262_143, 1, 1, 0, 0, 0, 0)), None);
    assert!(cef_time_to_utc_millis(t(-262_143, 1, 1, 0, 0, 0, 0)).is_some());
    assert_eq!(cef_time_to_utc_millis(t(-262_144, 12, 31, 0, 0, 0, 0)), None);
}
