use reflections::dates::{day_from, meeting_range_for, midnight_of, parse_date_range, parse_when, resolve_time_range, RangeError};
use reflections::time::{LocalFields, UtcTime};

fn at(year: i32, month: u32, day: u32, hour: u32, minute: u32) -> LocalFields {
    LocalFields { year, month, day, hour, minute }
}

#[test]
fn dates_and_times_are_read() {
    assert_eq!(parse_when("2026-01-31"), Some((at(2026, 1, 31, 0, 0), false)));
    assert_eq!(parse_when("2026-01-01 14:30"), Some((at(2026, 1, 1, 14, 30), true)));
    assert_eq!(parse_when("2024-02-29"), Some((at(2024, 2, 29, 0, 0), false)));
    assert_eq!(parse_when("2023-02-29"), None);
    assert_eq!(parse_when("2026-13-01"), None);
    assert_eq!(parse_when("2026-1-01"), None);
    assert_eq!(parse_when("2026-01-01 24:00"), None);
    assert_eq!(parse_when("2026-01-01T10:00"), None);
    assert_eq!(parse_when("today"), None);
}

#[test]
fn explicit_ranges_take_the_whole_end_day() {
    assert_eq!(
        parse_date_range("2026-01-01", "2026-01-31"),
        Ok((at(2026, 1, 1, 0, 0), at(2026, 2, 1, 0, 0)))
    );
    assert_eq!(
        parse_date_range("2026-01-01 14:30", "2026-01-31 09:00"),
        Ok((at(2026, 1, 1, 14, 30), at(2026, 1, 31, 9, 0)))
    );
    assert_eq!(
        parse_date_range("2025-12-30", "2025-12-31"),
        Ok((at(2025, 12, 30, 0, 0), at(2026, 1, 1, 0, 0)))
    );
    assert_eq!(parse_date_range("x", "2026-01-01"), Err(RangeError::InvalidStart("x".to_string())));
    assert_eq!(parse_date_range("2026-01-01", "y"), Err(RangeError::InvalidEnd("y".to_string())));
}

#[test]
fn today_and_week_count_from_the_local_date() {
    let today = at(2026, 3, 2, 15, 45);
    assert_eq!(resolve_time_range("today", None, today), Ok((at(2026, 3, 2, 0, 0), at(2026, 3, 3, 0, 0))));
    assert_eq!(resolve_time_range("week", None, today), Ok((at(2026, 2, 24, 0, 0), at(2026, 3, 3, 0, 0))));
    let new_year = at(2026, 1, 3, 8, 0);
    assert_eq!(resolve_time_range("week", None, new_year), Ok((at(2025, 12, 28, 0, 0), at(2026, 1, 4, 0, 0))));
    assert_eq!(resolve_time_range("today", Some("x"), today), Err(RangeError::UnexpectedEnd));
    assert_eq!(resolve_time_range("2026-01-01", None, today), Err(RangeError::MissingEnd));
    assert_eq!(resolve_time_range("soon", None, today), Err(RangeError::InvalidStart("soon".to_string())));
    assert_eq!(
        resolve_time_range("2026-01-01", Some("2026-01-02 10:00"), today),
        Ok((at(2026, 1, 1, 0, 0), at(2026, 1, 2, 10, 0)))
    );
}

#[test]
fn build_datetime_is_within_a_day_of_the_utc_reading() {
    // 2024-06-15 12:30 UTC is 1718454600 seconds after the epoch.
    let t = reflections::time::build_datetime(2024, 6, 15, 12, 30);
    assert!((t.secs - 1_718_454_600).abs() < 86_400);
    assert_eq!(t.nanos, 0);
}

#[test]
fn midnight_of_keeps_the_date() {
    let m = midnight_of(at(2024, 6, 15, 12, 30));
    assert_eq!((m.year, m.month, m.day, m.hour, m.minute), (2024, 6, 15, 0, 0));
}

#[test]
fn day_from_is_one_day_long() {
    let (s, e) = day_from(UtcTime { secs: 100, nanos: 5 });
    assert_eq!((s.secs, s.nanos, e.secs, e.nanos), (100, 5, 86_500, 5));
    let (_, e) = day_from(UtcTime { secs: i64::MAX - 10, nanos: 0 });
    assert_eq!(e.secs, i64::MAX);
}

#[test]
fn meeting_range_for_starts_near_midnight() {
    // 2024-06-15 00:00 UTC is 1718409600 seconds after the epoch.
    let (s, e) = meeting_range_for(at(2024, 6, 15, 12, 30));
    assert!((s.secs - 1_718_409_600).abs() < 86_400);
    assert_eq!(e.secs, s.secs + 86_400);
}
