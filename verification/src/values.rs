use vstd::prelude::*;
use chrono::NaiveDate;

verus! {

/// A C boolean: 1 for `true`, 0 for `false`.
pub open spec fn c_bool(b: bool) -> i32 {
    if b { 1 } else { 0 }
}

/// A point in integer coordinates.
#[derive(Debug, Clone, Copy, PartialEq, Eq, Default)]
pub struct Point {
    pub x: i32,
    pub y: i32,
}

/// A size in integer coordinates.
#[derive(Debug, Clone, Copy, PartialEq, Eq, Default)]
pub struct Size {
    pub width: i32,
    pub height: i32,
}

/// A rectangle in integer coordinates.
#[derive(Debug, Clone, Copy, PartialEq, Eq, Default)]
pub struct Rect {
    pub x: i32,
    pub y: i32,
    pub width: i32,
    pub height: i32,
}

/// A half-open range of character positions.
#[derive(Debug, Clone, Copy, PartialEq, Eq, Default)]
pub struct Range {
    pub from: i32,
    pub to: i32,
}


/// A calendar time as CEF exchanges it (`cef_time_t`), in UTC.
#[derive(Debug, Clone, Copy, PartialEq, Eq, Default)]
pub struct Time {
    /// Four or five digit year "2007" (1601 to 30827 on Windows, 1970 to 2038
    /// on 32-bit POSIX).
    pub year: i32,
    /// 1-based month (values 1 = January, etc.)
    pub month: i32,
    /// 0-based day of week (0 = Sunday, etc.)
    pub day_of_week: i32,
    /// 1-based day of month (1-31)
    pub day_of_month: i32,
    /// Hour within the current day (0-23)
    pub hour: i32,
    /// Minute within the current hour (0-59)
    pub minute: i32,
    /// Second within the current minute (0-59 plus leap seconds which may take
    /// it up to 60).
    pub second: i32,
    /// Milliseconds within the current second (0-999)
    pub millisecond: i32,
}

impl Time {
    /// The all-zero time record.
    pub open spec fn zero_spec() -> Time {
        Time {
            year: 0,
            month: 0,
            day_of_week: 0,
            day_of_month: 0,
            hour: 0,
            minute: 0,
            second: 0,
            millisecond: 0,
        }
    }

    /// The all-zero time record, which CEF uses where no time is given.
    pub fn zero() -> (t: Time)
        ensures
            t == Time::zero_spec(),
    {
        Time {
            year: 0,
            month: 0,
            day_of_week: 0,
            day_of_month: 0,
            hour: 0,
            minute: 0,
            second: 0,
            millisecond: 0,
        }
    }
}

/// The least year of a calendar date that chrono represents.
pub const MIN_DATE_YEAR: i32 = -262143;

/// The greatest year of a calendar date that chrono represents.
pub const MAX_DATE_YEAR: i32 = 262142;

/// Whether `year` is a leap year of the proleptic Gregorian calendar.
pub open spec fn is_leap_year(year: int) -> bool {
    year % 4 == 0 && (year % 100 != 0 || year % 400 == 0)
}

/// The number of days in `month` (1 to 12) of `year`.
pub open spec fn days_in_month(year: int, month: int) -> int {
    if month == 2 {
        if is_leap_year(year) { 29 } else { 28 }
    } else if month == 4 || month == 6 || month == 9 || month == 11 {
        30
    } else {
        31
    }
}

/// Whether year, month and day name a day of the proleptic Gregorian calendar
/// within the years that chrono represents.
pub open spec fn valid_calendar_date(year: int, month: int, day: int) -> bool {
    &&& MIN_DATE_YEAR <= year <= MAX_DATE_YEAR
    &&& 1 <= month <= 12
    &&& 1 <= day <= days_in_month(year, month)
}

/// Whether hour, minute, second and millisecond name a time of day. A
/// millisecond from 1000 to 1999 stands for a leap second, and only after the
/// 59th second.
pub open spec fn valid_clock_time(hour: int, minute: int, second: int, milli: int) -> bool {
    &&& 0 <= hour < 24
    &&& 0 <= minute < 60
    &&& 0 <= second < 60
    &&& 0 <= milli < 2000
    &&& (milli < 1000 || second == 59)
}

/// Whether the fields name a valid calendar date and time of day.
pub open spec fn valid_date_time(year: int, month: int, day: int, hour: int, minute: int, second: int, milli: int) -> bool {
    valid_calendar_date(year, month, day) && valid_clock_time(hour, minute, second, milli)
}

/// The milliseconds since the Unix epoch of the UTC date and time that chrono
/// builds from a calendar date and a time of day, or `None` where chrono
/// refuses them.
pub uninterp spec fn chrono_utc_millis(year: i32, month: u32, day: u32, hour: u32, minute: u32, second: u32, milli: u32) -> Option<i64>;

/// chrono's `NaiveDate::from_ymd_opt`, then `and_hms_milli_opt`, then
/// `and_utc().timestamp_millis()`: the UTC date and time as milliseconds since
/// the Unix epoch. chrono documents that it refuses exactly a day that does
/// not exist in the proleptic Gregorian calendar, a year outside its range,
/// and an invalid hour, minute, second or millisecond; the contract says so
/// and names the value it computes otherwise.
#[verifier::external_body]
fn utc_millis(year: i32, month: u32, day: u32, hour: u32, minute: u32, second: u32, milli: u32) -> (r: Option<i64>)
    ensures
        r == chrono_utc_millis(year, month, day, hour, minute, second, milli),
        r is Some <==> valid_date_time(year as int, month as int, day as int, hour as int, minute as int, second as int, milli as int),
{
    match NaiveDate::from_ymd_opt(year, month, day) {
        Some(date) => match date.and_hms_milli_opt(hour, minute, second, milli) {
            Some(date_time) => Some(date_time.and_utc().timestamp_millis()),
            None => None,
        },
        None => None,
    }
}

/// A field of a CEF time record as chrono takes it: a negative field becomes
/// a value of 2^31 or more, which no calendar or clock field accepts.
fn field(x: i32) -> (r: u32)
    ensures
        r == x as u32,
        x >= 0 ==> r as int == x as int,
        x < 0 ==> r >= 0x8000_0000,
{
    proof {
        assert(x >= 0 ==> (x as u32) as int == x as int) by (bit_vector);
        assert(x < 0 ==> (x as u32) >= 0x8000_0000u32) by (bit_vector);
    }
    x as u32
}

/// The UTC date and time that a CEF time record describes, as milliseconds
/// since the Unix epoch; `None` where the record is no valid date and time.
/// The day of the week is not read.
pub fn cef_time_to_utc_millis(t: Time) -> (r: Option<i64>)
    ensures
        r == chrono_utc_millis(
            t.year,
            t.month as u32,
            t.day_of_month as u32,
            t.hour as u32,
            t.minute as u32,
            t.second as u32,
            t.millisecond as u32,
        ),
        r is Some <==> valid_date_time(
            t.year as int,
            t.month as int,
            t.day_of_month as int,
            t.hour as int,
            t.minute as int,
            t.second as int,
            t.millisecond as int,
        ),
{
    utc_millis(
        t.year,
        field(t.month),
        field(t.day_of_month),
        field(t.hour),
        field(t.minute),
        field(t.second),
        field(t.millisecond),
    )
}

} // verus!
