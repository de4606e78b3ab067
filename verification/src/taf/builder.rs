//! A forecast built from the texts of its groups, its times resolved by the
//! clock.

use crate::utils::times::{
    always_a_time, datetime_at, datetime_of, ddhhmm, is_clock, lemma_resolves_on_every_clock,
    never_a_time, read_clock, Clock, Timestamp,
};
use vstd::prelude::*;
use vstd::slice::slice_subrange;
use vstd::string::StringSliceAdditionalSpecFns;

verus! {

/// The time for which a forecast is valid.
#[derive(Clone, Copy, Debug, PartialEq, Eq, Structural)]
pub struct ValidDateTimes {
    pub start: Timestamp,
    pub end: Timestamp,
}

/// A forecast.
#[derive(Debug)]
pub struct Taf {
    /// The ICAO identifier of the station.
    pub station: String,
    pub issue_time: Timestamp,
    pub valid_times: ValidDateTimes,
    pub conditions: Option<String>,
}

/// A `Taf` in contracts.
pub struct TafModel {
    pub station: Seq<char>,
    pub issue_time: Timestamp,
    pub valid_times: ValidDateTimes,
    pub conditions: Option<Seq<char>>,
}

impl View for Taf {
    type V = TafModel;

    open spec fn view(&self) -> TafModel {
        TafModel {
            station: self.station@,
            issue_time: self.issue_time,
            valid_times: self.valid_times,
            conditions: match self.conditions {
                Some(c) => Some(c@),
                None => None,
            },
        }
    }
}

/// Collects the texts of the groups of a forecast.
pub struct TafBuilder<'a> {
    pub station: &'a str,
    pub issue_time: &'a str,
    pub valid_times: &'a str,
    pub conditions: Option<&'a str>,
}

/// The characters of an optional text.
pub open spec fn optional_text(t: Option<&str>) -> Option<Seq<char>> {
    match t {
        Some(t) => Some(t@),
        None => None,
    }
}

/// The forecast that a builder describes to a clock. The validity is read
/// from the first four bytes of its text and from those behind the fifth;
/// there is no forecast where that text is shorter than five bytes, or where
/// one of the three times does not resolve.
pub open spec fn built(b: TafBuilder, clock: Clock) -> Option<TafModel> {
    let v = b.valid_times.spec_bytes();
    if v.len() < 5 {
        None
    } else {
        match (
            datetime_of(b.issue_time.spec_bytes(), clock),
            datetime_of(v.subrange(0, 4), clock),
            datetime_of(v.subrange(5, v.len() as int), clock),
        ) {
            (Some(issue_time), Some(start), Some(end)) => Some(
                TafModel {
                    station: b.station@,
                    issue_time,
                    valid_times: ValidDateTimes { start, end },
                    conditions: optional_text(b.conditions),
                },
            ),
            _ => None,
        }
    }
}

/// The three texts of the times of a builder: the time of issue, and the
/// start and the end of the validity.
pub open spec fn time_texts(b: TafBuilder) -> Seq<Seq<u8>>
    recommends
        b.valid_times.spec_bytes().len() >= 5,
{
    let v = b.valid_times.spec_bytes();
    seq![b.issue_time.spec_bytes(), v.subrange(0, 4), v.subrange(5, v.len() as int)]
}

/// Whether there is a forecast does not hang on the clock where each of
/// the three times is there on every clock, nor where one of them is there
/// on none.
pub proof fn lemma_built_on_every_clock(b: TafBuilder, clock: Clock)
    requires
        is_clock(clock),
        b.valid_times.spec_bytes().len() >= 5,
    ensures
        (forall|i: int| 0 <= i < 3 ==> always_a_time(#[trigger] time_texts(b)[i])) ==> built(
            b,
            clock,
        ) is Some,
        (exists|i: int| 0 <= i < 3 && never_a_time(#[trigger] time_texts(b)[i])) ==> built(
            b,
            clock,
        ) is None,
{
    let texts = time_texts(b);
    assert forall|i: int| 0 <= i < 3 implies (always_a_time(#[trigger] texts[i]) ==> datetime_of(
        texts[i],
        clock,
    ) is Some) && (never_a_time(texts[i]) ==> datetime_of(texts[i], clock) is None) by {
        if ddhhmm(texts[i]) is Some {
            lemma_resolves_on_every_clock(ddhhmm(texts[i]).unwrap(), clock);
        }
    }
    assert(texts[0] == b.issue_time.spec_bytes());
    assert(texts[1] == b.valid_times.spec_bytes().subrange(0, 4));
    assert(texts[2] == b.valid_times.spec_bytes().subrange(
        5,
        b.valid_times.spec_bytes().len() as int,
    ));
}

/// What `build_at` returned, held against `built`.
pub open spec fn is_built(r: Option<Taf>, m: Option<TafModel>) -> bool {
    match r {
        Some(taf) => m == Some(taf@),
        None => m is None,
    }
}

impl<'a> TafBuilder<'a> {
    /// A builder with the texts of station, issue time and validity, and no
    /// conditions.
    pub fn new(station: &'a str, issue_time: &'a str, valid_times: &'a str) -> (r: TafBuilder<'a>)
        ensures
            r == (TafBuilder { station, issue_time, valid_times, conditions: None }),
    {
        TafBuilder { station, issue_time, valid_times, conditions: None }
    }

    /// Sets the text of the conditions.
    pub fn with_conditions(&mut self, conditions: &'a str) -> (r: &mut Self)
        ensures
            *r == (TafBuilder { conditions: Some(conditions), ..*old(self) }),
            *final(self) == *final(r),
    {
        self.conditions = Some(conditions);
        self
    }

    /// The forecast, its times resolved against what `clock` says.
    pub fn build_at(&self, clock: &Clock) -> (r: Option<Taf>)
        ensures
            is_built(r, built(*self, *clock)),
    {
        let v = self.valid_times.as_bytes();
        if v.len() < 5 {
            return None;
        }
        let issue_time = datetime_at(self.issue_time.as_bytes(), clock);
        let start = datetime_at(slice_subrange(v, 0, 4), clock);
        let end = datetime_at(slice_subrange(v, 5, v.len()), clock);
        match (issue_time, start, end) {
            (Some(issue_time), Some(start), Some(end)) => Some(
                Taf {
                    station: self.station.to_owned(),
                    issue_time,
                    valid_times: ValidDateTimes { start, end },
                    conditions: match self.conditions {
                        Some(c) => Some(c.to_owned()),
                        None => None,
                    },
                },
            ),
            _ => None,
        }
    }

    /// The forecast, its times resolved against the present time. Whatever
    /// the clock says, a forecast that comes back holds the station and the
    /// conditions as they were given. One comes back where the text of the
    /// validity has five bytes or more and each of the three times is there
    /// on every clock; none comes back where that text is shorter, or one of
    /// the three times is there on no clock.
    pub fn build(&self) -> (r: Option<Taf>)
        ensures
            r matches Some(taf) ==> taf.station@ == self.station@ && taf@.conditions
                == optional_text(self.conditions),
            self.valid_times.spec_bytes().len() < 5 ==> r is None,
            self.valid_times.spec_bytes().len() >= 5 && (forall|i: int|
                0 <= i < 3 ==> always_a_time(#[trigger] time_texts(*self)[i])) ==> r is Some,
            self.valid_times.spec_bytes().len() >= 5 && (exists|i: int|
                0 <= i < 3 && never_a_time(#[trigger] time_texts(*self)[i])) ==> r is None,
    {
        let clock = read_clock();
        proof {
            if self.valid_times.spec_bytes().len() >= 5 {
                lemma_built_on_every_clock(*self, clock);
            }
        }
        self.build_at(&clock)
    }
}

} // verus!
