//! Gregorian calendar facts used by the meeting form.
use vstd::prelude::*;

verus! {

pub open spec fn spec_is_leap_year(year: int) -> bool {
    year % 4 == 0 && (year % 100 != 0 || year % 400 == 0)
}

/// Days of `month` (1 to 12) in `year` of the proleptic Gregorian calendar.
pub open spec fn spec_month_length(year: int, month: int) -> int {
    if month == 2 {
        if spec_is_leap_year(year) {
            29
        } else {
            28
        }
    } else if month == 4 || month == 6 || month == 9 || month == 11 {
        30
    } else {
        31
    }
}

/// The number of days of `month` in `year`, with the year held to 1900..=9999;
/// 28 for a month outside 1..=12, as no first day of such a month exists.
pub open spec fn spec_days_in_month(year: int, month: int) -> int {
    let y = if year < 1900 {
        1900
    } else if year > 9999 {
        9999
    } else {
        year
    };
    if 1 <= month && month <= 12 {
        spec_month_length(y, month)
    } else {
        28
    }
}

pub fn is_leap_year(year: i32) -> (r: bool)
    ensures
        r == spec_is_leap_year(year as int),
{
    year % 4 == 0 && (year % 100 != 0 || year % 400 == 0)
}

pub fn days_in_month(year: i32, month: u32) -> (d: u32)
    ensures
        d == spec_days_in_month(year as int, month as int),
        28 <= d <= 31,
{
    let y = if year < 1900 {
        1900
    } else if year > 9999 {
        9999
    } else {
        year
    };
    if month < 1 || month > 12 {
        28
    } else if month == 2 {
        if is_leap_year(y) {
            29
        } else {
            28
        }
    } else if month == 4 || month == 6 || month == 9 || month == 11 {
        30
    } else {
        31
    }
}

} // verus!
