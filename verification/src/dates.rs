//! The time ranges the command line takes: `today`, `week`, or a start and an
//! end, each written `YYYY-MM-DD` or `YYYY-MM-DD HH:MM` and read as a local
//! wall-clock time. A start given as a date begins at its midnight; an end given
//! as a date takes in the whole day.
use vstd::prelude::*;
use crate::calendar::spec_month_length;
use crate::meeting_modal::{all_digits, digits_value, pow10};
use crate::text::{chars_of, is_ascii_digit, spec_is_ascii_digit, str_eq};
use crate::time::{build_datetime, local_now_fields, spec_within_a_day, utc_instant_of, LocalFields, UtcTime};

verus! {

/// A day of the proleptic Gregorian calendar.
pub open spec fn spec_valid_date(y: int, m: int, d: int) -> bool {
    1 <= m <= 12 && 1 <= d <= spec_month_length(y, m)
}

/// The digits of `t` from `a` to `b`, when they are all digits.
pub open spec fn spec_number(t: Seq<char>, a: int, b: int) -> Option<int> {
    if all_digits(t.subrange(a, b)) {
        Some(digits_value(t.subrange(a, b)))
    } else {
        None
    }
}

/// A wall-clock time written `YYYY-MM-DD` (midnight; `false`) or
/// `YYYY-MM-DD HH:MM` (`true`).
pub open spec fn spec_parse_when(t: Seq<char>) -> Option<(LocalFields, bool)> {
    if t.len() != 10 && t.len() != 16 {
        None
    } else if t[4] != '-' || t[7] != '-' {
        None
    } else {
        match (spec_number(t, 0, 4), spec_number(t, 5, 7), spec_number(t, 8, 10)) {
            (Some(y), Some(m), Some(d)) => if !spec_valid_date(y, m, d) {
                None
            } else if t.len() == 10 {
                Some((LocalFields { year: y as i32, month: m as u32, day: d as u32, hour: 0, minute: 0 }, false))
            } else if t[10] != ' ' || t[13] != ':' {
                None
            } else {
                match (spec_number(t, 11, 13), spec_number(t, 14, 16)) {
                    (Some(h), Some(mi)) => if h < 24 && mi < 60 {
                        Some(
                            (
                                LocalFields { year: y as i32, month: m as u32, day: d as u32, hour: h as u32, minute: mi as u32 },
                                true,
                            ),
                        )
                    } else {
                        None
                    },
                    _ => None,
                }
            },
            _ => None,
        }
    }
}

/// The day after `(y, m, d)`.
pub open spec fn spec_next_day(y: int, m: int, d: int) -> (int, int, int) {
    if d < spec_month_length(y, m) {
        (y, m, d + 1)
    } else if m < 12 {
        (y, m + 1, 1)
    } else {
        (y + 1, 1, 1)
    }
}

/// The day before `(y, m, d)`.
pub open spec fn spec_prev_day(y: int, m: int, d: int) -> (int, int, int) {
    if d > 1 {
        (y, m, d - 1)
    } else if m > 1 {
        (y, m - 1, spec_month_length(y, m - 1))
    } else {
        (y - 1, 12, 31)
    }
}

/// The day `n` days before `(y, m, d)`.
pub open spec fn spec_days_back(y: int, m: int, d: int, n: nat) -> (int, int, int)
    decreases n,
{
    if n == 0 {
        (y, m, d)
    } else {
        let (y1, m1, d1) = spec_prev_day(y, m, d);
        spec_days_back(y1, m1, d1, (n - 1) as nat)
    }
}

pub open spec fn spec_midnight(day: (int, int, int)) -> LocalFields {
    LocalFields { year: day.0 as i32, month: day.1 as u32, day: day.2 as u32, hour: 0, minute: 0 }
}

/// Why a time range was not taken.
#[derive(Debug, PartialEq, Eq)]
pub enum RangeError {
    /// The start is no date or time; it holds the text.
    InvalidStart(String),
    /// The end is no date or time; it holds the text.
    InvalidEnd(String),
    /// A start was given without an end.
    MissingEnd,
    /// `today` or `week` was followed by another value.
    UnexpectedEnd,
}

pub enum RangeErrorView {
    InvalidStart(Seq<char>),
    InvalidEnd(Seq<char>),
    MissingEnd,
    UnexpectedEnd,
}

impl View for RangeError {
    type V = RangeErrorView;

    open spec fn view(&self) -> RangeErrorView {
        match self {
            RangeError::InvalidStart(s) => RangeErrorView::InvalidStart(s@),
            RangeError::InvalidEnd(s) => RangeErrorView::InvalidEnd(s@),
            RangeError::MissingEnd => RangeErrorView::MissingEnd,
            RangeError::UnexpectedEnd => RangeErrorView::UnexpectedEnd,
        }
    }
}

/// An explicit range: the start as written, the end as written or, for a
/// date, the midnight that ends it.
pub open spec fn spec_date_range(start: Seq<char>, end: Seq<char>) -> Result<(LocalFields, LocalFields), RangeErrorView> {
    match spec_parse_when(start) {
        None => Err(RangeErrorView::InvalidStart(start)),
        Some((s, _)) => match spec_parse_when(end) {
            None => Err(RangeErrorView::InvalidEnd(end)),
            Some((e, true)) => Ok((s, e)),
            Some((e, false)) => Ok((s, spec_midnight(spec_next_day(e.year as int, e.month as int, e.day as int)))),
        },
    }
}

/// The range the arguments name, `today` being the local date: `today` is that
/// day, `week` the seven days that end with it, and otherwise the arguments are
/// a start and an end.
pub open spec fn spec_time_range(first: Seq<char>, second: Option<Seq<char>>, today: LocalFields) -> Result<
    (LocalFields, LocalFields),
    RangeErrorView,
> {
    let t = (today.year as int, today.month as int, today.day as int);
    let tomorrow = spec_midnight(spec_next_day(t.0, t.1, t.2));
    if first == "today"@ {
        if second.is_some() {
            Err(RangeErrorView::UnexpectedEnd)
        } else {
            Ok((spec_midnight(t), tomorrow))
        }
    } else if first == "week"@ {
        if second.is_some() {
            Err(RangeErrorView::UnexpectedEnd)
        } else {
            Ok((spec_midnight(spec_days_back(t.0, t.1, t.2, 6)), tomorrow))
        }
    } else {
        match second {
            None => match spec_parse_when(first) {
                None => Err(RangeErrorView::InvalidStart(first)),
                Some(_) => Err(RangeErrorView::MissingEnd),
            },
            Some(e) => spec_date_range(first, e),
        }
    }
}

/// The number written by the digits of `v` from `a` to `b` (at most four).
fn number(v: &Vec<char>, a: usize, b: usize) -> (r: Option<u32>)
    requires
        a <= b <= v.len(),
        b - a <= 4,
    ensures
        match r {
            Some(n) => spec_number(v@, a as int, b as int) == Some(n as int) && n < 10000,
            None => spec_number(v@, a as int, b as int).is_none(),
        },
{
    let mut n: u32 = 0;
    let mut i = a;
    while i < b
        invariant
            a <= i <= b <= v.len(),
            b - a <= 4,
            all_digits(v@.subrange(a as int, i as int)),
            n as int == digits_value(v@.subrange(a as int, i as int)),
            n < pow10((i - a) as nat),
            pow10((i - a) as nat) <= 10000,
        decreases b - i,
    {
        if !is_ascii_digit(v[i]) {
            assert(!spec_is_ascii_digit(v@.subrange(a as int, b as int)[i - a]));
            return None;
        }
        let ghost sub = v@.subrange(a as int, i + 1);
        assert(sub.drop_last() =~= v@.subrange(a as int, i as int));
        assert(sub.last() == v@[i as int]);
        assert(pow10((i + 1 - a) as nat) == 10 * pow10((i - a) as nat));
        assert(i + 1 - a <= 4);
        assert(pow10(4) == 10000) by {
            reveal_with_fuel(pow10, 5);
        }
        assert(pow10((i + 1 - a) as nat) <= 10000) by {
            if i + 1 - a == 1 {
                reveal_with_fuel(pow10, 2);
            } else if i + 1 - a == 2 {
                reveal_with_fuel(pow10, 3);
            } else if i + 1 - a == 3 {
                reveal_with_fuel(pow10, 4);
            } else {
                reveal_with_fuel(pow10, 5);
            }
        }
        n = n * 10 + (v[i] as u32 - '0' as u32);
        i = i + 1;
        assert(all_digits(v@.subrange(a as int, i as int))) by {
            assert forall|j: int| 0 <= j < i - a implies spec_is_ascii_digit(#[trigger] v@.subrange(a as int, i as int)[j]) by {
                if j < i - 1 - a {
                    assert(v@.subrange(a as int, i as int)[j] == v@.subrange(a as int, i - 1)[j]);
                }
            }
        }
    }
    Some(n)
}

fn month_length(y: u32, m: u32) -> (r: u32)
    requires
        1 <= m <= 12,
    ensures
        r == spec_month_length(y as int, m as int),
{
    if m == 2 {
        if y % 4 == 0 && (y % 100 != 0 || y % 400 == 0) {
            29
        } else {
            28
        }
    } else if m == 4 || m == 6 || m == 9 || m == 11 {
        30
    } else {
        31
    }
}

/// Reads a wall-clock time written `YYYY-MM-DD` or `YYYY-MM-DD HH:MM`; the flag
/// says whether a time of day was written.
pub fn parse_when(text: &str) -> (r: Option<(LocalFields, bool)>)
    ensures
        r == spec_parse_when(text@),
        r matches Some((f, _)) ==> 0 <= f.year < 10000 && 1 <= f.month <= 12,
{
    let t = chars_of(text);
    let n = t.len();
    if n != 10 && n != 16 {
        return None;
    }
    if t[4] != '-' || t[7] != '-' {
        return None;
    }
    let y = match number(&t, 0, 4) {
        Some(v) => v,
        None => return None,
    };
    let m = match number(&t, 5, 7) {
        Some(v) => v,
        None => return None,
    };
    let d = match number(&t, 8, 10) {
        Some(v) => v,
        None => return None,
    };
    if m < 1 || m > 12 || d < 1 || d > month_length(y, m) {
        return None;
    }
    assert(y < 10000);
    if n == 10 {
        return Some((LocalFields { year: y as i32, month: m, day: d, hour: 0, minute: 0 }, false));
    }
    if t[10] != ' ' || t[13] != ':' {
        return None;
    }
    let h = match number(&t, 11, 13) {
        Some(v) => v,
        None => return None,
    };
    let mi = match number(&t, 14, 16) {
        Some(v) => v,
        None => return None,
    };
    if h < 24 && mi < 60 {
        Some((LocalFields { year: y as i32, month: m, day: d, hour: h, minute: mi }, true))
    } else {
        None
    }
}

fn next_day(y: i32, m: u32, d: u32) -> (r: (i32, u32, u32))
    requires
        1 <= m <= 12,
        y < i32::MAX,
    ensures
        (r.0 as int, r.1 as int, r.2 as int) == spec_next_day(y as int, m as int, d as int),
{
    let len = if m == 2 {
        if y % 4 == 0 && (y % 100 != 0 || y % 400 == 0) {
            29
        } else {
            28
        }
    } else if m == 4 || m == 6 || m == 9 || m == 11 {
        30
    } else {
        31
    };
    assert(len == spec_month_length(y as int, m as int));
    if d < len {
        (y, m, d + 1)
    } else if m < 12 {
        (y, m + 1, 1)
    } else {
        (y + 1, 1, 1)
    }
}

fn prev_day(y: i32, m: u32, d: u32) -> (r: (i32, u32, u32))
    requires
        1 <= m <= 12,
        y > i32::MIN,
    ensures
        (r.0 as int, r.1 as int, r.2 as int) == spec_prev_day(y as int, m as int, d as int),
        1 <= r.1 <= 12,
        r.0 >= y - 1,
{
    if d > 1 {
        (y, m, d - 1)
    } else if m > 1 {
        let pm = m - 1;
        let len = if pm == 2 {
            if y % 4 == 0 && (y % 100 != 0 || y % 400 == 0) {
                29
            } else {
                28
            }
        } else if pm == 4 || pm == 6 || pm == 9 || pm == 11 {
            30
        } else {
            31
        };
        assert(len == spec_month_length(y as int, pm as int));
        (y, pm, len)
    } else {
        (y - 1, 12, 31)
    }
}

fn midnight(day: (i32, u32, u32)) -> (r: LocalFields)
    ensures
        r == spec_midnight((day.0 as int, day.1 as int, day.2 as int)),
{
    LocalFields { year: day.0, month: day.1, day: day.2, hour: 0, minute: 0 }
}

pub open spec fn spec_opt_view(o: Option<&str>) -> Option<Seq<char>> {
    match o {
        Some(s) => Some(s@),
        None => None,
    }
}

/// An explicit range, as `summary create` and the explicit form of the other
/// commands take it.
pub fn parse_date_range(start: &str, end: &str) -> (r: Result<(LocalFields, LocalFields), RangeError>)
    ensures
        match r {
            Ok(p) => spec_date_range(start@, end@) == Ok::<(LocalFields, LocalFields), RangeErrorView>(p),
            Err(e) => spec_date_range(start@, end@) == Err::<(LocalFields, LocalFields), RangeErrorView>(e@),
        },
{
    let s = match parse_when(start) {
        None => return Err(RangeError::InvalidStart(String::from_str(start))),
        Some((s, _)) => s,
    };
    match parse_when(end) {
        None => Err(RangeError::InvalidEnd(String::from_str(end))),
        Some((e, true)) => Ok((s, e)),
        Some((e, false)) => Ok((s, midnight(next_day(e.year, e.month, e.day)))),
    }
}

/// The range the arguments name, `today` being the local date.
pub fn resolve_time_range(first: &str, second: Option<&str>, today: LocalFields) -> (r: Result<
    (LocalFields, LocalFields),
    RangeError,
>)
    requires
        1 <= today.month <= 12,
        i32::MIN + 6 < today.year < i32::MAX,
    ensures
        match r {
            Ok(p) => spec_time_range(first@, spec_opt_view(second), today) == Ok::<
                (LocalFields, LocalFields),
                RangeErrorView,
            >(p),
            Err(e) => spec_time_range(first@, spec_opt_view(second), today) == Err::<
                (LocalFields, LocalFields),
                RangeErrorView,
            >(e@),
        },
{
    proof {
        reveal_strlit("today");
        reveal_strlit("week");
    }
    let t = (today.year, today.month, today.day);
    if str_eq(first, "today") || str_eq(first, "week") {
        if second.is_some() {
            return Err(RangeError::UnexpectedEnd);
        }
        let tomorrow = midnight(next_day(t.0, t.1, t.2));
        if str_eq(first, "today") {
            return Ok((midnight(t), tomorrow));
        }
        let mut day = t;
        let mut k: u32 = 0;
        while k < 6
            invariant
                k <= 6,
                1 <= day.1 <= 12,
                day.0 >= today.year - k,
                i32::MIN + 6 < today.year < i32::MAX,
                spec_days_back(t.0 as int, t.1 as int, t.2 as int, 6) == spec_days_back(
                    day.0 as int,
                    day.1 as int,
                    day.2 as int,
                    (6 - k) as nat,
                ),
            decreases 6 - k,
        {
            day = prev_day(day.0, day.1, day.2);
            k = k + 1;
        }
        return Ok((midnight(day), tomorrow));
    }
    match second {
        None => match parse_when(first) {
            None => Err(RangeError::InvalidStart(String::from_str(first))),
            Some(_) => Err(RangeError::MissingEnd),
        },
        Some(e) => parse_date_range(first, e),
    }
}

/// Local midnight of the day `today` falls on.
pub fn midnight_of(today: LocalFields) -> (m: LocalFields)
    ensures
        m == (LocalFields { hour: 0, minute: 0, ..today }),
{
    LocalFields { year: today.year, month: today.month, day: today.day, hour: 0, minute: 0 }
}

/// The day that starts at `start`: up to one day (86 400 s) later, held to the
/// largest instant.
pub fn day_from(start: UtcTime) -> (r: (UtcTime, UtcTime))
    ensures
        r.0 == start,
        start.secs <= i64::MAX - 86_400 ==> r.1 == (UtcTime { secs: (start.secs + 86_400) as i64, nanos: start.nanos }),
        start.secs > i64::MAX - 86_400 ==> r.1 == (UtcTime { secs: i64::MAX, nanos: start.nanos }),
{
    let end_secs = if start.secs > i64::MAX - 86_400 {
        i64::MAX
    } else {
        start.secs + 86_400
    };
    (start, UtcTime { secs: end_secs, nanos: start.nanos })
}

/// `t` is midnight of the date in `f` as some zone reads it: `f` holds a month
/// and a day of at most 31, and when it is a valid date, `t` lies within a day
/// of its midnight UTC.
pub open spec fn spec_starts_at_midnight_of(f: LocalFields, t: UtcTime) -> bool {
    &&& 1 <= f.month <= 12
    &&& 1 <= f.day <= 31
    &&& utc_instant_of(f.year as int, f.month as int, f.day as int, 0, 0) matches Some(u) ==> spec_within_a_day(t, u)
}

/// The day the meetings tab lists when the clock's local date is `today`:
/// `day_from` the instant of local midnight on that date (the earlier one if
/// the zone repeats it, midnight UTC if the zone skips it). The zone is the
/// machine's; whatever it is, a valid date's start lies within a day of its
/// midnight UTC, and the range is one day long.
pub fn meeting_range_for(today: LocalFields) -> (r: (UtcTime, UtcTime))
    ensures
        utc_instant_of(today.year as int, today.month as int, today.day as int, 0, 0) matches Some(u)
            ==> spec_within_a_day(r.0, u),
        r.0.secs <= i64::MAX - 86_400 ==> r.1 == (UtcTime { secs: (r.0.secs + 86_400) as i64, nanos: r.0.nanos }),
        r.0.secs > i64::MAX - 86_400 ==> r.1 == (UtcTime { secs: i64::MAX, nanos: r.0.nanos }),
{
    let m = midnight_of(today);
    let start = build_datetime(m.year, m.month, m.day, m.hour, m.minute);
    day_from(start)
}

/// The day the meetings tab lists: `meeting_range_for` the clock's local date.
/// Which date the clock reads is the machine's; whatever it is, it holds a
/// month and a day, and the range is one day long.
pub fn today_meeting_range() -> (r: (UtcTime, UtcTime))
    ensures
        exists|f: LocalFields| #[trigger] spec_starts_at_midnight_of(f, r.0),
        r.0.secs <= i64::MAX - 86_400 ==> r.1 == (UtcTime { secs: (r.0.secs + 86_400) as i64, nanos: r.0.nanos }),
        r.0.secs > i64::MAX - 86_400 ==> r.1 == (UtcTime { secs: i64::MAX, nanos: r.0.nanos }),
{
    let now = local_now_fields();
    let r = meeting_range_for(now);
    assert(spec_starts_at_midnight_of(now, r.0));
    r
}

proof fn lemma_digits_bound(t: Seq<char>)
    requires
        all_digits(t),
    ensures
        0 <= digits_value(t) < pow10(t.len()),
    decreases t.len(),
{
    if t.len() > 0 {
        let p = t.drop_last();
        assert(all_digits(p)) by {
            assert forall|i: int| 0 <= i < p.len() implies spec_is_ascii_digit(#[trigger] p[i]) by {
                assert(p[i] == t[i]);
            }
        }
        assert(spec_is_ascii_digit(t[t.len() - 1]));
        lemma_digits_bound(p);
    }
}

proof fn lemma_parsed_date_in_range(t: Seq<char>)
    ensures
        spec_parse_when(t) matches Some((f, _)) ==> spec_valid_date(f.year as int, f.month as int, f.day as int)
            && 0 <= f.year < 10000,
{
    if t.len() == 10 || t.len() == 16 {
        if let (Some(y), Some(m), Some(d)) = (spec_number(t, 0, 4), spec_number(t, 5, 7), spec_number(t, 8, 10)) {
            lemma_digits_bound(t.subrange(0, 4));
            lemma_digits_bound(t.subrange(5, 7));
            lemma_digits_bound(t.subrange(8, 10));
            assert(pow10(4) == 10000) by {
                reveal_with_fuel(pow10, 5);
            }
            assert(pow10(2) == 100) by {
                reveal_with_fuel(pow10, 3);
            }
        }
    }
}

/// `e` is midnight of the day after `(y, m, d)`: a real date, the next day of
/// the month, or the first of the next month, or New Year's Day.
pub open spec fn spec_is_midnight_after(e: LocalFields, y: int, m: int, d: int) -> bool {
    &&& e.hour == 0 && e.minute == 0
    &&& spec_valid_date(e.year as int, e.month as int, e.day as int)
    &&& if d < spec_month_length(y, m) {
        e.year == y && e.month == m && e.day == d + 1
    } else if m < 12 {
        e.year == y && e.month == m + 1 && e.day == 1
    } else {
        e.year == y + 1 && e.month == 1 && e.day == 1
    }
}

proof fn lemma_next_day_is_midnight_after(y: int, m: int, d: int)
    requires
        spec_valid_date(y, m, d),
        i32::MIN < y < i32::MAX,
    ensures
        spec_is_midnight_after(spec_midnight(spec_next_day(y, m, d)), y, m, d),
{
    let n = spec_next_day(y, m, d);
    assert(1 <= n.1 <= 12);
    if m < 12 && d >= spec_month_length(y, m) {
        assert(spec_month_length(y, m + 1) >= 28);
    }
}

/// An end written as a date takes in that whole day: the range ends at the
/// midnight that starts the next day, a real date (so 30 April ends at
/// 1 May, 31 December at New Year's Day of the next year).
pub proof fn law_date_end_takes_the_whole_day(start: Seq<char>, end: Seq<char>)
    ensures
        spec_parse_when(start) is Some ==> (spec_parse_when(end) matches Some((f, false)) ==> (
        spec_date_range(start, end) matches Ok((_, e)) && spec_is_midnight_after(
            e,
            f.year as int,
            f.month as int,
            f.day as int,
        ))),
{
    if let Some((f, false)) = spec_parse_when(end) {
        lemma_parsed_date_in_range(end);
        lemma_next_day_is_midnight_after(f.year as int, f.month as int, f.day as int);
    }
}

/// `today` runs from midnight of the local date to midnight of the next day,
/// a real date; `week` ends at that same midnight.
pub proof fn law_today_ends_at_the_next_midnight(today: LocalFields, second: Option<Seq<char>>)
    requires
        spec_valid_date(today.year as int, today.month as int, today.day as int),
        i32::MIN < today.year < i32::MAX,
        second.is_none(),
    ensures
        spec_time_range("today"@, second, today) matches Ok((s, e)) && s == spec_midnight(
            (today.year as int, today.month as int, today.day as int),
        ) && spec_is_midnight_after(e, today.year as int, today.month as int, today.day as int),
        spec_time_range("week"@, second, today) matches Ok((_, e)) && spec_is_midnight_after(
            e,
            today.year as int,
            today.month as int,
            today.day as int,
        ),
{
    reveal_strlit("today");
    reveal_strlit("week");
    assert("week"@.len() != "today"@.len());
    lemma_next_day_is_midnight_after(today.year as int, today.month as int, today.day as int);
}

/// The day before a date and the day after it are real dates, and each step
/// undoes the other.
pub proof fn law_next_and_previous_day_undo_each_other(y: int, m: int, d: int)
    requires
        spec_valid_date(y, m, d),
    ensures
        spec_valid_date(spec_next_day(y, m, d).0, spec_next_day(y, m, d).1, spec_next_day(y, m, d).2),
        spec_valid_date(spec_prev_day(y, m, d).0, spec_prev_day(y, m, d).1, spec_prev_day(y, m, d).2),
        ({
            let (y1, m1, d1) = spec_next_day(y, m, d);
            spec_prev_day(y1, m1, d1) == (y, m, d)
        }),
        ({
            let (y0, m0, d0) = spec_prev_day(y, m, d);
            spec_next_day(y0, m0, d0) == (y, m, d)
        }),
{
    if m < 12 {
        assert(spec_month_length(y, m + 1) >= 28);
    }
    if m > 1 {
        assert(spec_month_length(y, m - 1) >= 28);
    }
    assert(spec_month_length(y, 12) == 31);
}

/// `n` days after `(y, m, d)`.
pub open spec fn spec_days_forward(y: int, m: int, d: int, n: nat) -> (int, int, int)
    decreases n,
{
    if n == 0 {
        (y, m, d)
    } else {
        let (y1, m1, d1) = spec_next_day(y, m, d);
        spec_days_forward(y1, m1, d1, (n - 1) as nat)
    }
}

proof fn lemma_back_then_forward(y: int, m: int, d: int, n: nat)
    requires
        spec_valid_date(y, m, d),
    ensures
        ({
            let (y0, m0, d0) = spec_days_back(y, m, d, n);
            spec_valid_date(y0, m0, d0) && spec_days_forward(y0, m0, d0, n) == (y, m, d)
        }),
    decreases n,
{
    if n > 0 {
        law_next_and_previous_day_undo_each_other(y, m, d);
        let (y1, m1, d1) = spec_prev_day(y, m, d);
        lemma_back_then_forward(y1, m1, d1, (n - 1) as nat);
        let (y0, m0, d0) = spec_days_back(y1, m1, d1, (n - 1) as nat);
        lemma_forward_last(y0, m0, d0, (n - 1) as nat);
    }
}

proof fn lemma_forward_last(y: int, m: int, d: int, n: nat)
    ensures
        ({
            let (y1, m1, d1) = spec_days_forward(y, m, d, n);
            spec_days_forward(y, m, d, n + 1) == spec_next_day(y1, m1, d1)
        }),
    decreases n,
{
    let (y1, m1, d1) = spec_next_day(y, m, d);
    assert(spec_days_forward(y, m, d, n + 1) == spec_days_forward(y1, m1, d1, n));
    if n > 0 {
        lemma_forward_last(y1, m1, d1, (n - 1) as nat);
        assert(spec_days_forward(y, m, d, n) == spec_days_forward(y1, m1, d1, (n - 1) as nat));
        assert((n - 1) as nat + 1 == n);
    } else {
        assert(spec_days_forward(y1, m1, d1, 0) == (y1, m1, d1));
    }
}

/// `week` is seven whole days: it starts at midnight of a real date from which
/// seven days forward is the midnight that ends the range, the day after today.
pub proof fn law_week_is_seven_days(today: LocalFields)
    requires
        spec_valid_date(today.year as int, today.month as int, today.day as int),
        i32::MIN + 6 < today.year < i32::MAX,
    ensures
        spec_time_range("week"@, None, today) matches Ok((s, e)) && s.hour == 0 && s.minute == 0
            && spec_valid_date(s.year as int, s.month as int, s.day as int) && spec_days_forward(
            s.year as int,
            s.month as int,
            s.day as int,
            7,
        ) == (e.year as int, e.month as int, e.day as int),
{
    reveal_strlit("today");
    reveal_strlit("week");
    assert("week"@.len() != "today"@.len());
    let t = (today.year as int, today.month as int, today.day as int);
    lemma_back_then_forward(t.0, t.1, t.2, 6);
    let b = spec_days_back(t.0, t.1, t.2, 6);
    lemma_forward_last(b.0, b.1, b.2, 6);
    lemma_days_back_year(t.0, t.1, t.2, 6);
    lemma_next_day_is_midnight_after(t.0, t.1, t.2);
}

proof fn lemma_days_back_year(y: int, m: int, d: int, n: nat)
    ensures
        y - n <= spec_days_back(y, m, d, n).0 <= y,
    decreases n,
{
    if n > 0 {
        let (y1, m1, d1) = spec_prev_day(y, m, d);
        lemma_days_back_year(y1, m1, d1, (n - 1) as nat);
    }
}

} // verus!
