//! Instants in UTC, and the calls into `chrono` that read the clock, resolve
//! local wall-clock times and render instants as text.
use vstd::prelude::*;
use chrono::{Datelike, TimeZone, Timelike};

verus! {

/// An instant: whole seconds since 1970-01-01 00:00:00 UTC and the nanoseconds
/// past that second.
#[derive(Clone, Copy, Debug, PartialEq, Eq, Structural)]
pub struct UtcTime {
    pub secs: i64,
    pub nanos: u32,
}

impl UtcTime {
    /// `self` is not later than `other`: the seconds decide, then the nanoseconds.
    pub open spec fn spec_le(self, other: UtcTime) -> bool {
        self.secs < other.secs || (self.secs == other.secs && self.nanos <= other.nanos)
    }

    pub fn le(&self, other: &UtcTime) -> (r: bool)
        ensures
            r == self.spec_le(*other),
    {
        self.secs < other.secs || (self.secs == other.secs && self.nanos <= other.nanos)
    }

    pub fn same_instant(&self, other: &UtcTime) -> (r: bool)
        ensures
            r == (*self == *other),
    {
        self.secs == other.secs && self.nanos == other.nanos
    }
}

/// The fields of a wall-clock reading in the local time zone.
#[derive(Clone, Copy, Debug, PartialEq, Eq, Structural)]
pub struct LocalFields {
    pub year: i32,
    pub month: u32,
    pub day: u32,
    pub hour: u32,
    pub minute: u32,
}

/// How a local wall-clock time maps onto instants.
#[derive(Clone, Copy, Debug, PartialEq, Eq, Structural)]
pub enum LocalLookup {
    Single(UtcTime),
    /// A fold: the earlier and the later instant.
    Ambiguous(UtcTime, UtcTime),
    /// A gap, or a field out of range.
    Nonexistent,
}

/// The instant `year-month-day hour:minute:00` in UTC, when that is a valid
/// date and time (chrono's `Utc.with_ymd_and_hms`).
pub uninterp spec fn utc_instant_of(year: int, month: int, day: int, hour: int, minute: int) -> Option<UtcTime>;

/// `chrono::Local::now()`, split into its calendar fields. What the clock reads
/// is not stated; chrono documents the ranges of each field.
#[verifier::external_body]
pub(crate) fn local_now_fields() -> (f: LocalFields)
    ensures
        1 <= f.month <= 12,
        1 <= f.day <= 31,
        f.hour <= 23,
        f.minute <= 59,
{
    let now = chrono::Local::now();
    LocalFields {
        year: now.year(),
        month: now.month(),
        day: now.day(),
        hour: now.hour(),
        minute: now.minute(),
    }
}

/// `t` is less than a day away from `u`, on the same fraction of a second:
/// what shifting a wall-clock reading by a zone offset gives.
pub open spec fn spec_within_a_day(t: UtcTime, u: UtcTime) -> bool {
    -86400 < t.secs - u.secs < 86400 && t.nanos == u.nanos
}

/// `chrono::Local.with_ymd_and_hms(..)` with zero seconds. Which instants come
/// back depends on the machine's time zone; what chrono's source shows of every
/// zone is stated: an instant comes back only for a valid date and time (else
/// the lookup is `None`), and it is the reading less the zone's `FixedOffset`,
/// which is always under a day, so it lies within a day of the same reading
/// taken as UTC.
#[verifier::external_body]
pub(crate) fn local_lookup(year: i32, month: u32, day: u32, hour: u32, minute: u32) -> (r: LocalLookup)
    ensures
        match r {
            LocalLookup::Single(t) => utc_instant_of(year as int, month as int, day as int, hour as int, minute as int)
                matches Some(u) && spec_within_a_day(t, u),
            LocalLookup::Ambiguous(a, b) => utc_instant_of(
                year as int,
                month as int,
                day as int,
                hour as int,
                minute as int,
            ) matches Some(u) && spec_within_a_day(a, u) && spec_within_a_day(b, u),
            LocalLookup::Nonexistent => true,
        },
{
    match chrono::Local.with_ymd_and_hms(year, month, day, hour, minute, 0) {
        chrono::LocalResult::Single(dt) => LocalLookup::Single(
            UtcTime { secs: dt.timestamp(), nanos: dt.timestamp_subsec_nanos() },
        ),
        chrono::LocalResult::Ambiguous(a, b) => LocalLookup::Ambiguous(
            UtcTime { secs: a.timestamp(), nanos: a.timestamp_subsec_nanos() },
            UtcTime { secs: b.timestamp(), nanos: b.timestamp_subsec_nanos() },
        ),
        chrono::LocalResult::None => LocalLookup::Nonexistent,
    }
}

/// `chrono::Utc.with_ymd_and_hms(..)` with zero seconds: `Some` exactly for a
/// valid date and time, as named by `utc_instant_of`.
#[verifier::external_body]
pub(crate) fn utc_lookup(year: i32, month: u32, day: u32, hour: u32, minute: u32) -> (r: Option<UtcTime>)
    ensures
        r == utc_instant_of(year as int, month as int, day as int, hour as int, minute as int),
{
    match chrono::Utc.with_ymd_and_hms(year, month, day, hour, minute, 0) {
        chrono::LocalResult::Single(dt) => Some(
            UtcTime { secs: dt.timestamp(), nanos: dt.timestamp_subsec_nanos() },
        ),
        _ => None,
    }
}

/// `chrono::Utc::now()`. What the clock reads is not stated; chrono always
/// gives it with less than a second of nanoseconds.
#[verifier::external_body]
pub(crate) fn utc_now() -> (t: UtcTime)
    ensures
        t.nanos < 1_000_000_000,
{
    let now = chrono::Utc::now();
    UtcTime { secs: now.timestamp(), nanos: now.timestamp_subsec_nanos() }
}

/// The instant chosen for a wall-clock reading: the single local instant, the
/// earlier one of a fold, else the reading taken as UTC, else `now`.
pub open spec fn spec_pick_instant(local: LocalLookup, utc: Option<UtcTime>, now: UtcTime) -> UtcTime {
    match local {
        LocalLookup::Single(t) => t,
        LocalLookup::Ambiguous(t, _) => t,
        LocalLookup::Nonexistent => match utc {
            Some(t) => t,
            None => now,
        },
    }
}

pub fn pick_instant(local: LocalLookup, utc: Option<UtcTime>, now: UtcTime) -> (t: UtcTime)
    ensures
        t == spec_pick_instant(local, utc, now),
{
    match local {
        LocalLookup::Single(t) => t,
        LocalLookup::Ambiguous(t, _) => t,
        LocalLookup::Nonexistent => match utc {
            Some(t) => t,
            None => now,
        },
    }
}

/// The instant a meeting form's fields stand for: `pick_instant` over the local
/// zone's reading of the fields, the fields read as UTC, and the present. For a
/// valid date and time it is the local reading (or, in a gap, the UTC one), so
/// it lies within a day of the fields read as UTC; which instant exactly depends
/// on the machine's zone, and for fields that are no date, on the clock.
pub fn build_datetime(year: i32, month: u32, day: u32, hour: u32, minute: u32) -> (t: UtcTime)
    ensures
        utc_instant_of(year as int, month as int, day as int, hour as int, minute as int) matches Some(u)
            ==> spec_within_a_day(t, u),
{
    let local = local_lookup(year, month, day, hour, minute);
    let utc = utc_lookup(year, month, day, hour, minute);
    let now = utc_now();
    pick_instant(local, utc, now)
}

/// The instant an RFC 3339 text stands for (chrono's `parse_from_rfc3339`).
pub uninterp spec fn rfc3339_instant(text: Seq<char>) -> Option<UtcTime>;

/// The instant a `%Y-%m-%d %H:%M:%S` text stands for, read as UTC.
pub uninterp spec fn naive_utc_instant(text: Seq<char>) -> Option<UtcTime>;

/// The instant at `secs` and `nanos` written as `%Y-%m-%d %H:%M:%S` (UTC), when
/// chrono can represent it.
pub uninterp spec fn db_time_text(secs: int, nanos: int) -> Option<Seq<char>>;

/// The instant at `secs` and `nanos` written in RFC 3339 (UTC, `+00:00`), when
/// chrono can represent it.
pub uninterp spec fn rfc3339_text(secs: int, nanos: int) -> Option<Seq<char>>;

/// The UTC date of the instant at `secs` and `nanos` written as `%Y/%m/%d`,
/// when chrono can represent it.
pub uninterp spec fn date_dir_text(secs: int, nanos: int) -> Option<Seq<char>>;

/// `DateTime::parse_from_rfc3339`, the result taken to UTC.
#[verifier::external_body]
pub(crate) fn parse_rfc3339(text: &str) -> (r: Option<UtcTime>)
    ensures
        r == rfc3339_instant(text@),
{
    match chrono::DateTime::parse_from_rfc3339(text) {
        Ok(dt) => Some(UtcTime { secs: dt.timestamp(), nanos: dt.timestamp_subsec_nanos() }),
        Err(_) => None,
    }
}

/// `NaiveDateTime::parse_from_str(text, "%Y-%m-%d %H:%M:%S")`, read as UTC.
#[verifier::external_body]
pub(crate) fn parse_naive_utc(text: &str) -> (r: Option<UtcTime>)
    ensures
        r == naive_utc_instant(text@),
{
    match chrono::NaiveDateTime::parse_from_str(text, "%Y-%m-%d %H:%M:%S") {
        Ok(n) => {
            let dt = n.and_utc();
            Some(UtcTime { secs: dt.timestamp(), nanos: dt.timestamp_subsec_nanos() })
        },
        Err(_) => None,
    }
}

/// `DateTime::from_timestamp` and `format("%Y-%m-%d %H:%M:%S")`.
#[verifier::external_body]
pub(crate) fn format_db_time(t: UtcTime) -> (r: Option<String>)
    ensures
        match r {
            Some(s) => db_time_text(t.secs as int, t.nanos as int) == Some(s@),
            None => db_time_text(t.secs as int, t.nanos as int).is_none(),
        },
{
    chrono::DateTime::from_timestamp(t.secs, t.nanos).map(|dt| dt.format("%Y-%m-%d %H:%M:%S").to_string())
}

/// `DateTime::from_timestamp` and `to_rfc3339`.
#[verifier::external_body]
pub(crate) fn format_rfc3339(t: UtcTime) -> (r: Option<String>)
    ensures
        match r {
            Some(s) => rfc3339_text(t.secs as int, t.nanos as int) == Some(s@),
            None => rfc3339_text(t.secs as int, t.nanos as int).is_none(),
        },
{
    chrono::DateTime::from_timestamp(t.secs, t.nanos).map(|dt| dt.to_rfc3339())
}

/// `t` in RFC 3339 (UTC, `+00:00`), as events record their time; `None` when
/// chrono cannot represent it.
pub fn rfc3339_timestamp(t: UtcTime) -> (r: Option<String>)
    ensures
        match r {
            Some(s) => rfc3339_text(t.secs as int, t.nanos as int) == Some(s@),
            None => rfc3339_text(t.secs as int, t.nanos as int).is_none(),
        },
{
    format_rfc3339(t)
}

/// `t` as the store writes it, `%Y-%m-%d %H:%M:%S` in UTC; `None` when chrono
/// cannot represent it.
pub fn db_timestamp(t: UtcTime) -> (r: Option<String>)
    ensures
        match r {
            Some(s) => db_time_text(t.secs as int, t.nanos as int) == Some(s@),
            None => db_time_text(t.secs as int, t.nanos as int).is_none(),
        },
{
    format_db_time(t)
}

/// `DateTime::from_timestamp` and `format("%Y/%m/%d")`.
#[verifier::external_body]
pub(crate) fn format_date_dir(t: UtcTime) -> (r: Option<String>)
    ensures
        match r {
            Some(s) => date_dir_text(t.secs as int, t.nanos as int) == Some(s@),
            None => date_dir_text(t.secs as int, t.nanos as int).is_none(),
        },
{
    chrono::DateTime::from_timestamp(t.secs, t.nanos).map(|dt| dt.format("%Y/%m/%d").to_string())
}

/// The instant at `secs` and `nanos` written as `%Y-%m-%d %H:%M` (UTC), when
/// chrono can represent it.
pub uninterp spec fn utc_minute_text(secs: int, nanos: int) -> Option<Seq<char>>;

/// `DateTime::from_timestamp` and `format("%Y-%m-%d %H:%M")`.
#[verifier::external_body]
pub(crate) fn format_utc_minute(t: UtcTime) -> (r: Option<String>)
    ensures
        match r {
            Some(s) => utc_minute_text(t.secs as int, t.nanos as int) == Some(s@),
            None => utc_minute_text(t.secs as int, t.nanos as int).is_none(),
        },
{
    chrono::DateTime::from_timestamp(t.secs, t.nanos).map(|dt| dt.format("%Y-%m-%d %H:%M").to_string())
}

/// `s` is `t` read off a wall clock, to the minute: `%Y-%m-%d %H:%M` of `t`
/// shifted by some zone offset of less than a day (stated where every such
/// shift can be represented); empty exactly when chrono cannot represent `t`.
pub open spec fn spec_local_minute(t: UtcTime, s: Seq<char>) -> bool {
    match db_time_text(t.secs as int, t.nanos as int) {
        None => s.len() == 0,
        Some(_) => {
            &&& s.len() > 0
            &&& (utc_minute_text(t.secs - 86399, t.nanos as int).is_some() && utc_minute_text(
                t.secs + 86399,
                t.nanos as int,
            ).is_some()) ==> exists|shifted: int|
                -86400 < shifted - t.secs < 86400 && #[trigger] utc_minute_text(shifted, t.nanos as int) == Some(s)
        },
    }
}

/// `DateTime::from_timestamp`, taken to the local zone and written as
/// `%Y-%m-%d %H:%M`; `None` when chrono cannot represent the instant. Whether
/// it is `None` is decided by the same `from_timestamp` call as in
/// `format_db_time`, and the pattern always writes some text. The local time is
/// the UTC time plus the zone's `FixedOffset`, always under a day, so the text
/// is that of `format_utc_minute` for the shifted instant when that instant can
/// be represented; which offset is the machine's zone.
#[verifier::external_body]
pub(crate) fn format_local_minute(t: UtcTime) -> (r: Option<String>)
    ensures
        r.is_some() == db_time_text(t.secs as int, t.nanos as int).is_some(),
        r matches Some(s) ==> spec_local_minute(t, s@),
{
    chrono::DateTime::from_timestamp(t.secs, t.nanos).map(
        |dt| dt.with_timezone(&chrono::Local).format("%Y-%m-%d %H:%M").to_string(),
    )
}

/// The local `%Y-%m-%d %H:%M` text of `t`, or nothing for an instant chrono
/// cannot represent.
pub(crate) fn local_minute_text(t: UtcTime) -> (s: String)
    ensures
        (s@.len() == 0) == db_time_text(t.secs as int, t.nanos as int).is_none(),
        spec_local_minute(t, s@),
{
    match format_local_minute(t) {
        Some(s) => s,
        None => String::new(),
    }
}

/// A stored timestamp that is neither RFC 3339 nor `%Y-%m-%d %H:%M:%S`; it holds the text.
#[derive(Debug, PartialEq, Eq)]
pub struct TimestampError(pub String);

/// A stored timestamp: RFC 3339 when it reads as such, else `%Y-%m-%d %H:%M:%S` in UTC.
pub open spec fn spec_parse_timestamp(text: Seq<char>) -> Option<UtcTime> {
    match rfc3339_instant(text) {
        Some(t) => Some(t),
        None => naive_utc_instant(text),
    }
}

pub fn parse_timestamp(text: &str) -> (r: Result<UtcTime, TimestampError>)
    ensures
        match r {
            Ok(t) => spec_parse_timestamp(text@) == Some(t),
            Err(e) => spec_parse_timestamp(text@).is_none() && e.0@ == text@,
        },
{
    match parse_rfc3339(text) {
        Some(t) => Ok(t),
        None => match parse_naive_utc(text) {
            Some(t) => Ok(t),
            None => Err(TimestampError(String::from_str(text))),
        },
    }
}

} // verus!
