//! The grammar of a forecast bulletin.

use crate::error::{missing, missing_at, Expected, ParseError};
use crate::lexical::{
    after, agrees, eat, eat_icao_identifier, eat_two_digits, icao_identifier, read_two_digits,
    skip_whitespace, span, two_digit_value, two_digits, whitespace, Span,
};
use crate::taf::builder::ValidDateTimes;
use crate::utils::times::{resolve, resolved, Clock, DayTime, Timestamp};
use vstd::prelude::*;

verus! {

/// The time for which a forecast is valid, as the bulletin gives it.
#[derive(Clone, Copy, Debug, PartialEq, Eq, Structural)]
pub struct ValidityWindow {
    pub start: DayTime,
    pub end: DayTime,
}

/// A parsed forecast bulletin.
#[derive(Clone, Copy, Debug, PartialEq, Eq, Structural)]
pub struct TafReport {
    /// Where the four bytes of the station identifier stand in the input.
    pub station: Span,
    pub issue_time: DayTime,
    pub validity: ValidityWindow,
    /// Where the conditions stand in the input: all that follows the
    /// validity and the whitespace behind it.
    pub conditions: Span,
}

/// The times of a forecast as days of the calendar.
#[derive(Clone, Copy, Debug, PartialEq, Eq, Structural)]
pub struct ForecastTimes {
    pub issue_time: Timestamp,
    pub valid_times: ValidDateTimes,
}

/// What the times of a forecast mean to the clock: there are none where
/// one of the three does not resolve.
pub open spec fn forecast_times(report: TafReport, clock: Clock) -> Option<ForecastTimes> {
    match (
        resolved(report.issue_time, clock),
        resolved(report.validity.start, clock),
        resolved(report.validity.end, clock),
    ) {
        (Some(issue_time), Some(start), Some(end)) => Some(
            ForecastTimes { issue_time, valid_times: ValidDateTimes { start, end } },
        ),
        _ => None,
    }
}

impl TafReport {
    /// Resolves the time of issue and the validity against what the clock
    /// says.
    pub fn times(&self, clock: &Clock) -> (r: Option<ForecastTimes>)
        ensures
            r == forecast_times(*self, *clock),
    {
        match (
            resolve(self.issue_time, clock),
            resolve(self.validity.start, clock),
            resolve(self.validity.end, clock),
        ) {
            (Some(issue_time), Some(start), Some(end)) => Some(
                ForecastTimes { issue_time, valid_times: ValidDateTimes { start, end } },
            ),
            _ => None,
        }
    }
}

/// The name of the bulletin, `TAF`, where it is written.
pub open spec fn bulletin_name(s: Seq<u8>, pos: int) -> int {
    match after(s, pos, "TAF") {
        Some(p) => p,
        None => pos,
    }
}

/// Where the station identifier must stand.
pub open spec fn station_position(s: Seq<u8>) -> int {
    whitespace(s, bulletin_name(s, whitespace(s, 0)))
}

/// The time of issue: six digits for day, hour and minute, and `Z`.
pub open spec fn issue_time(s: Seq<u8>, pos: int) -> Option<(DayTime, int)> {
    if two_digits(s, pos) is Some && two_digits(s, pos + 2) is Some && two_digits(s, pos + 4)
        is Some && after(s, pos + 6, "Z") is Some {
        Some(
            (
                DayTime {
                    day: two_digit_value(s, pos),
                    hour: two_digit_value(s, pos + 2),
                    minute: two_digit_value(s, pos + 4),
                },
                after(s, pos + 6, "Z").unwrap(),
            ),
        )
    } else {
        None
    }
}

/// A day and an hour: four digits.
pub open spec fn day_hour(s: Seq<u8>, pos: int) -> Option<(DayTime, int)> {
    if two_digits(s, pos) is Some && two_digits(s, pos + 2) is Some {
        Some(
            (
                DayTime {
                    day: two_digit_value(s, pos),
                    hour: two_digit_value(s, pos + 2),
                    minute: 0,
                },
                pos + 4,
            ),
        )
    } else {
        None
    }
}

/// The validity: day and hour of its start, a slash, day and hour of its
/// end.
pub open spec fn valid_times(s: Seq<u8>, pos: int) -> Option<(ValidityWindow, int)> {
    match day_hour(s, pos) {
        None => None,
        Some((start, p)) => match after(s, p, "/") {
            None => None,
            Some(q) => match day_hour(s, q) {
                Some((end, e)) => Some((ValidityWindow { start, end }, e)),
                None => None,
            },
        },
    }
}

/// The forecast that an input holds, or the error where a group that must
/// be there is missing: the station identifier, the time of issue, the
/// validity, with whitespace before and between them where there is any.
/// What follows is the conditions, as they stand.
pub open spec fn taf(s: Seq<u8>) -> Result<TafReport, ParseError> {
    match icao_identifier(s, station_position(s)) {
        None => Err(missing(s, station_position(s), 4, Expected::IcaoIdentifier)),
        Some((station, p)) => match issue_time(s, whitespace(s, p)) {
            None => Err(missing(s, whitespace(s, p), 7, Expected::IssueTime)),
            Some((issued, q)) => match valid_times(s, whitespace(s, q)) {
                None => Err(missing(s, whitespace(s, q), 9, Expected::ValidityWindow)),
                Some((validity, e)) => Ok(
                    TafReport {
                        station,
                        issue_time: issued,
                        validity,
                        conditions: span(whitespace(s, e), s.len() as int),
                    },
                ),
            },
        },
    }
}

fn eat_issue_time(input: &[u8], pos: usize) -> (r: Option<(DayTime, usize)>)
    requires
        pos <= input.len(),
    ensures
        agrees(r, issue_time(input@, pos as int), pos, input.len()),
{
    if eat_two_digits(input, pos).is_some() && eat_two_digits(input, pos + 2).is_some()
        && eat_two_digits(input, pos + 4).is_some() {
        match eat(input, pos + 6, "Z") {
            Some(e) => Some(
                (
                    DayTime {
                        day: read_two_digits(input, pos),
                        hour: read_two_digits(input, pos + 2),
                        minute: read_two_digits(input, pos + 4),
                    },
                    e,
                ),
            ),
            None => None,
        }
    } else {
        None
    }
}

fn eat_day_hour(input: &[u8], pos: usize) -> (r: Option<(DayTime, usize)>)
    requires
        pos <= input.len(),
    ensures
        agrees(r, day_hour(input@, pos as int), pos, input.len()),
{
    if eat_two_digits(input, pos).is_some() && eat_two_digits(input, pos + 2).is_some() {
        Some(
            (
                DayTime {
                    day: read_two_digits(input, pos),
                    hour: read_two_digits(input, pos + 2),
                    minute: 0,
                },
                pos + 4,
            ),
        )
    } else {
        None
    }
}

fn eat_valid_times(input: &[u8], pos: usize) -> (r: Option<(ValidityWindow, usize)>)
    requires
        pos <= input.len(),
    ensures
        agrees(r, valid_times(input@, pos as int), pos, input.len()),
{
    match eat_day_hour(input, pos) {
        None => None,
        Some((start, p)) => match eat(input, p, "/") {
            None => None,
            Some(q) => match eat_day_hour(input, q) {
                Some((end, e)) => Some((ValidityWindow { start, end }, e)),
                None => None,
            },
        },
    }
}

/// Parses a forecast bulletin: station, time of issue and validity, which
/// must be there, and the conditions, which are all that follows.
pub fn parse_taf(input: &[u8]) -> (r: Result<TafReport, ParseError>)
    ensures
        r == taf(input@),
        r matches Ok(report) ==> report.station.lies_within(input.len()) && report.station.end
            - report.station.start == 4 && report.conditions.lies_within(input.len()),
{
    let p = skip_whitespace(input, 0);
    let p = match eat(input, p, "TAF") {
        Some(q) => q,
        None => p,
    };
    let at = skip_whitespace(input, p);
    match eat_icao_identifier(input, at) {
        None => Err(missing_at(input, at, 4, Expected::IcaoIdentifier)),
        Some((station, p)) => {
            let at = skip_whitespace(input, p);
            match eat_issue_time(input, at) {
                None => Err(missing_at(input, at, 7, Expected::IssueTime)),
                Some((issued, q)) => {
                    let at = skip_whitespace(input, q);
                    match eat_valid_times(input, at) {
                        None => Err(missing_at(input, at, 9, Expected::ValidityWindow)),
                        Some((validity, e)) => Ok(
                            TafReport {
                                station,
                                issue_time: issued,
                                validity,
                                conditions: Span {
                                    start: skip_whitespace(input, e),
                                    end: input.len(),
                                },
                            },
                        ),
                    }
                },
            }
        },
    }
}

} // verus!
