//! Times of a bulletin, which give a day of the month and a time of day,
//! resolved to calendar dates by the clock.

use crate::lexical::{
    byte_is, eat_two_digits, peek, read_two_digits, two_digit_value, two_digits,
};
use crate::tokens::ZuluDateTime;
use chrono::{Datelike, NaiveDate, Timelike, Utc};
use vstd::prelude::*;
use vstd::string::StringSliceAdditionalSpecFns;

verus! {

/// The letter `Z`.
pub const LETTER_Z: u8 = 90;

/// The first year of the calendar that the clock knows.
pub const MIN_YEAR: i32 = -262143;

/// The last year of the calendar that the clock knows.
pub const MAX_YEAR: i32 = 262142;

/// A day of the calendar.
#[derive(Clone, Copy, Debug, PartialEq, Eq, Structural)]
pub struct Date {
    pub year: i32,
    pub month: u32,
    pub day: u32,
}

/// A second of a day of the calendar, in UTC.
#[derive(Clone, Copy, Debug, PartialEq, Eq, Structural)]
pub struct Timestamp {
    pub date: Date,
    pub hour: u32,
    pub minute: u32,
    pub second: u32,
}

/// What the clock says: the present time, and the days after and before
/// the present day, where the calendar has them.
#[derive(Clone, Copy, Debug, PartialEq, Eq, Structural)]
pub struct Clock {
    pub now: Timestamp,
    pub tomorrow: Option<Date>,
    pub yesterday: Option<Date>,
}

/// A day of the month and a time of day, as a bulletin gives them.
#[derive(Clone, Copy, Debug, PartialEq, Eq, Structural)]
pub struct DayTime {
    pub day: u8,
    pub hour: u8,
    pub minute: u8,
}

/// Whether a year has a 29th of February.
pub open spec fn is_leap_year(year: int) -> bool {
    year % 4 == 0 && (year % 100 != 0 || year % 400 == 0)
}

/// The number of days of a month.
pub open spec fn days_in_month(year: int, month: int) -> int {
    if month == 2 {
        if is_leap_year(year) {
            29
        } else {
            28
        }
    } else if month == 4 || month == 6 || month == 9 || month == 11 {
        30
    } else {
        31
    }
}

/// A day that the calendar has.
pub open spec fn is_date(d: Date) -> bool {
    MIN_YEAR <= d.year <= MAX_YEAR && 1 <= d.month <= 12 && 1 <= d.day <= days_in_month(
        d.year as int,
        d.month as int,
    )
}

/// The day after `d`, where `d` is a day of the calendar and not its last.
pub open spec fn day_after_of(d: Date) -> Option<Date> {
    if !is_date(d) {
        None
    } else if d.day < days_in_month(d.year as int, d.month as int) {
        Some(Date { day: (d.day + 1) as u32, ..d })
    } else if d.month < 12 {
        Some(Date { month: (d.month + 1) as u32, day: 1, ..d })
    } else if d.year < MAX_YEAR {
        Some(Date { year: (d.year + 1) as i32, month: 1, day: 1 })
    } else {
        None
    }
}

/// The day before `d`, where `d` is a day of the calendar and not its
/// first.
pub open spec fn day_before_of(d: Date) -> Option<Date> {
    if !is_date(d) {
        None
    } else if d.day > 1 {
        Some(Date { day: (d.day - 1) as u32, ..d })
    } else if d.month > 1 {
        Some(
            Date {
                month: (d.month - 1) as u32,
                day: days_in_month(d.year as int, d.month - 1) as u32,
                ..d
            },
        )
    } else if d.year > MIN_YEAR {
        Some(Date { year: (d.year - 1) as i32, month: 12, day: 31 })
    } else {
        None
    }
}

/// A time that a clock can show.
pub open spec fn is_timestamp(t: Timestamp) -> bool {
    is_date(t.date) && t.hour < 24 && t.minute < 60 && t.second < 60
}

/// The present time in UTC, from `chrono::Utc::now` and the accessors of
/// `Datelike` and `Timelike`. Nothing is claimed of which time it is, only
/// that it is a second of a day that the calendar has. The call panics on a
/// machine whose clock stands before 1970.
#[verifier::external_body]
fn utc_now() -> (r: Timestamp)
    ensures
        is_timestamp(r),
{
    let now = Utc::now();
    Timestamp {
        date: Date { year: now.year(), month: now.month(), day: now.day() },
        hour: now.hour(),
        minute: now.minute(),
        second: now.second(),
    }
}

/// Whether the calendar has the day `d`, by `chrono::NaiveDate::from_ymd_opt`,
/// which yields a date exactly for the days that exist, in the years it
/// holds.
#[verifier::external_body]
fn date_exists(d: Date) -> (r: bool)
    ensures
        r == is_date(d),
{
    NaiveDate::from_ymd_opt(d.year, d.month, d.day).is_some()
}

/// The day after `d`, by `chrono::NaiveDate::succ_opt`: the next day of the
/// calendar, and none behind its last day or for a day it does not have.
#[verifier::external_body]
fn day_after(d: Date) -> (r: Option<Date>)
    ensures
        r == day_after_of(d),
{
    match NaiveDate::from_ymd_opt(d.year, d.month, d.day) {
        Some(date) => match date.succ_opt() {
            Some(next) => Some(Date { year: next.year(), month: next.month(), day: next.day() }),
            None => None,
        },
        None => None,
    }
}

/// The day before `d`, by `chrono::NaiveDate::pred_opt`: the previous day
/// of the calendar, and none before its first day or for a day it does not
/// have.
#[verifier::external_body]
fn day_before(d: Date) -> (r: Option<Date>)
    ensures
        r == day_before_of(d),
{
    match NaiveDate::from_ymd_opt(d.year, d.month, d.day) {
        Some(date) => match date.pred_opt() {
            Some(last) => Some(Date { year: last.year(), month: last.month(), day: last.day() }),
            None => None,
        },
        None => None,
    }
}

/// A day, an hour and, where they are written, a minute and a closing `Z`:
/// `ddhh`, `ddhhmm`, `ddhhZ` or `ddhhmmZ`, and nothing else. Without a
/// minute it is the full hour.
pub open spec fn ddhhmm(s: Seq<u8>) -> Option<DayTime> {
    if two_digits(s, 0) is Some && two_digits(s, 2) is Some {
        let m = if two_digits(s, 4) is Some {
            (two_digit_value(s, 4), 6int)
        } else {
            (0u8, 4int)
        };
        let e = if byte_is(s, m.1, LETTER_Z) {
            m.1 + 1
        } else {
            m.1
        };
        if e == s.len() {
            Some(DayTime { day: two_digit_value(s, 0), hour: two_digit_value(s, 2), minute: m.0 })
        } else {
            None
        }
    } else {
        None
    }
}

/// Reads a day and a time of day from the whole of `text`.
pub fn parse_ddhhmm(text: &[u8]) -> (r: Option<DayTime>)
    ensures
        r == ddhhmm(text@),
{
    if eat_two_digits(text, 0).is_some() && eat_two_digits(text, 2).is_some() {
        let m: (u8, usize) = if eat_two_digits(text, 4).is_some() {
            (read_two_digits(text, 4), 6)
        } else {
            (0, 4)
        };
        let e: usize = if peek(text, m.1, LETTER_Z) {
            m.1 + 1
        } else {
            m.1
        };
        if e == text.len() {
            Some(
                DayTime {
                    day: read_two_digits(text, 0),
                    hour: read_two_digits(text, 2),
                    minute: m.0,
                },
            )
        } else {
            None
        }
    } else {
        None
    }
}

/// The day of the clock whose month and year a day of the month `day`
/// belongs to: the present day where it has that number, else tomorrow, else
/// yesterday, else the present day.
pub open spec fn anchor(day: u32, clock: Clock) -> Date {
    if day == clock.now.date.day {
        clock.now.date
    } else if clock.tomorrow is Some && clock.tomorrow.unwrap().day == day {
        clock.tomorrow.unwrap()
    } else if clock.yesterday is Some && clock.yesterday.unwrap().day == day {
        clock.yesterday.unwrap()
    } else {
        clock.now.date
    }
}

/// The calendar day that the day of the month `day` means to the clock.
pub open spec fn resolved_date(day: u32, clock: Clock) -> Date {
    Date { day, ..anchor(day, clock) }
}

/// The time that a day and a time of day mean to the clock. An hour from 24
/// on is that hour less 24 of the following day; there is no time where the
/// calendar has no such day, or no day has such an hour or minute.
pub open spec fn resolved(t: DayTime, clock: Clock) -> Option<Timestamp> {
    let date = resolved_date(t.day as u32, clock);
    if !is_date(date) || t.minute >= 60 || t.hour >= 48 {
        None
    } else if t.hour >= 24 {
        match day_after_of(date) {
            Some(next) => Some(
                Timestamp {
                    date: next,
                    hour: (t.hour - 24) as u32,
                    minute: t.minute as u32,
                    second: 0,
                },
            ),
            None => None,
        }
    } else {
        Some(Timestamp { date, hour: t.hour as u32, minute: t.minute as u32, second: 0 })
    }
}

/// The time that a text means to the clock: the present time where the
/// text is no day and time of day.
pub open spec fn datetime_of(s: Seq<u8>, clock: Clock) -> Option<Timestamp> {
    match ddhhmm(s) {
        Some(t) => resolved(t, clock),
        None => Some(clock.now),
    }
}

/// What a clock says hangs together: its present time is a second of a day
/// that the calendar has, and its days around that day are those of the
/// calendar.
pub open spec fn is_clock(clock: Clock) -> bool {
    is_timestamp(clock.now) && clock.tomorrow == day_after_of(clock.now.date) && clock.yesterday
        == day_before_of(clock.now.date)
}

/// A day and a time of day that resolve whatever the clock says: every
/// month has the day, and the hour and the minute can be shown.
pub open spec fn always_resolves(t: DayTime) -> bool {
    1 <= t.day <= 28 && t.hour < 48 && t.minute < 60
}

/// A day and a time of day that resolve on no clock: no month has the day,
/// or no clock shows the hour or the minute.
pub open spec fn never_resolves(t: DayTime) -> bool {
    t.day == 0 || t.day > 31 || t.hour >= 48 || t.minute >= 60
}

/// A text whose time is there whatever the clock says: one that resolves
/// always, or none at all, which means the present time.
pub open spec fn always_a_time(s: Seq<u8>) -> bool {
    ddhhmm(s) matches Some(t) ==> always_resolves(t)
}

/// A text whose time is there on no clock.
pub open spec fn never_a_time(s: Seq<u8>) -> bool {
    ddhhmm(s) matches Some(t) && never_resolves(t)
}

/// The day before a day of the calendar is a day of the calendar.
pub proof fn lemma_day_before_is_a_date(d: Date)
    ensures
        day_before_of(d) matches Some(last) ==> is_date(last),
{
}

/// Whether a day and a time of day resolve does not hang on the clock
/// where every month has the day, nor where none has it.
pub proof fn lemma_resolves_on_every_clock(t: DayTime, clock: Clock)
    requires
        is_clock(clock),
    ensures
        always_resolves(t) ==> resolved(t, clock) is Some,
        never_resolves(t) ==> resolved(t, clock) is None,
{
    lemma_day_after_is_a_date(clock.now.date);
    lemma_day_before_is_a_date(clock.now.date);
}

/// The day after a day of the calendar is a day of the calendar.
pub proof fn lemma_day_after_is_a_date(d: Date)
    ensures
        day_after_of(d) matches Some(next) ==> is_date(next),
{
}

/// A day and a time of day resolve to a second of a day that the calendar
/// has, in the full minute that was given.
pub proof fn lemma_resolved_is_a_time(t: DayTime, clock: Clock)
    ensures
        resolved(t, clock) matches Some(at) ==> is_timestamp(at) && at.minute == t.minute
            && at.second == 0 && at.hour == t.hour % 24,
{
    lemma_day_after_is_a_date(resolved_date(t.day as u32, clock));
}

fn pick_anchor(day: u32, clock: &Clock) -> (r: Date)
    ensures
        r == anchor(day, *clock),
{
    if day == clock.now.date.day {
        return clock.now.date;
    }
    match clock.tomorrow {
        Some(t) => if t.day == day {
            return t;
        },
        None => {},
    }
    match clock.yesterday {
        Some(y) => if y.day == day {
            return y;
        },
        None => {},
    }
    clock.now.date
}

/// Resolves a day and a time of day against what the clock says.
pub fn resolve(t: DayTime, clock: &Clock) -> (r: Option<Timestamp>)
    ensures
        r == resolved(t, *clock),
{
    let a = pick_anchor(t.day as u32, clock);
    let date = Date { year: a.year, month: a.month, day: t.day as u32 };
    if !date_exists(date) || t.minute >= 60 || t.hour >= 48 {
        None
    } else if t.hour >= 24 {
        match day_after(date) {
            Some(next) => Some(
                Timestamp {
                    date: next,
                    hour: (t.hour - 24) as u32,
                    minute: t.minute as u32,
                    second: 0,
                },
            ),
            None => None,
        }
    } else {
        Some(Timestamp { date, hour: t.hour as u32, minute: t.minute as u32, second: 0 })
    }
}

/// The day and the time of day of an observation.
pub open spec fn observed_at(t: ZuluDateTime) -> DayTime {
    DayTime { day: t.day_of_month, hour: t.time.hour, minute: t.time.minute }
}

/// Resolves the time of an observation against what the clock says.
pub fn resolve_observation(t: &ZuluDateTime, clock: &Clock) -> (r: Option<Timestamp>)
    ensures
        r == resolved(observed_at(*t), *clock),
{
    resolve(DayTime { day: t.day_of_month, hour: t.time.hour, minute: t.time.minute }, clock)
}

/// Resolves a text of the form `ddhh`, `ddhhmm`, `ddhhZ` or `ddhhmmZ`
/// against what the clock says; any other text means the present time.
pub fn datetime_at(text: &[u8], clock: &Clock) -> (r: Option<Timestamp>)
    ensures
        r == datetime_of(text@, *clock),
{
    match parse_ddhhmm(text) {
        Some(t) => resolve(t, clock),
        None => Some(clock.now),
    }
}

/// Asks the clock: the present time, and the days around the present day.
pub fn read_clock() -> (r: Clock)
    ensures
        is_clock(r),
{
    let now = utc_now();
    Clock { now, tomorrow: day_after(now.date), yesterday: day_before(now.date) }
}

/// Resolves a text of the form `ddhh`, `ddhhmm`, `ddhhZ` or `ddhhmmZ`
/// against the present time. Whatever the clock says, a time that comes
/// back is a second of a day that the calendar has; for such a text it has
/// the minute that the text gives, its hour, less 24 from 24 on, and its day
/// of the month where the hour is below 24. A time comes back for any other
/// text, and for a day that every month has; none comes back for a day
/// that no month has, an hour from 48 on or a minute from 60 on.
pub fn ddhhmm_to_datetime(text: &str) -> (r: Option<Timestamp>)
    ensures
        r matches Some(at) ==> is_timestamp(at),
        always_a_time(text.spec_bytes()) ==> r is Some,
        never_a_time(text.spec_bytes()) ==> r is None,
        match (ddhhmm(text.spec_bytes()), r) {
            (Some(t), Some(at)) => at.minute == t.minute && at.second == 0 && at.hour == t.hour
                % 24 && (t.hour < 24 ==> at.date.day == t.day),
            (Some(t), None) => true,
            (None, _) => r is Some,
        },
{
    let clock = read_clock();
    proof {
        if ddhhmm(text.spec_bytes()) is Some {
            lemma_resolved_is_a_time(ddhhmm(text.spec_bytes()).unwrap(), clock);
            lemma_resolves_on_every_clock(ddhhmm(text.spec_bytes()).unwrap(), clock);
        }
    }
    datetime_at(text.as_bytes(), &clock)
}

} // verus!
