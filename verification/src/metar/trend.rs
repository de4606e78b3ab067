//! Trend groups: the forecast appended to an observation.

use crate::lexical::{
    after, agrees, agrees_at, eat, eat_keyword, eat_maybe, flattened, flattened_at, keyword,
    maybe, optional, optional_at, or, skip_whitespace, whitespace,
};
use crate::metar::cloud::{cloud_layers, parse_cloud_layers};
use crate::metar::groups::{color_state, eat_color_state, eat_zulu_time, zulu_time};
use crate::metar::visibility::{parse_visibility, visibility};
use crate::metar::weather::{parse_weather_sequence, weather_sequence};
use crate::metar::wind::{parse_wind, wind};
use crate::tokens::{
    trend_models, weather_models, CloudCover, Trend, TrendModel, TrendReport, TrendReportModel,
    TrendTime, TrendTimeType, Weather, WeatherModel,
};
use vstd::prelude::*;

verus! {

/// `NOSIG`, in any of the spellings that were seen.
pub open spec fn no_change(s: Seq<u8>, pos: int) -> Option<int> {
    or(
        after(s, pos, "NOSIG"),
        or(
            after(s, pos, "NOISIG"),
            or(
                after(s, pos, "N0SIG"),
                or(
                    after(s, pos, "NOS16"),
                    or(after(s, pos, "NOSING"), or(after(s, pos, "NOSG"), after(s, pos, "NSG"))),
                ),
            ),
        ),
    )
}

/// `AT`, `FM` or `TL`.
pub open spec fn trend_time_type(s: Seq<u8>, pos: int) -> Option<(TrendTimeType, int)> {
    or(
        keyword(s, pos, "AT", TrendTimeType::At),
        or(keyword(s, pos, "FM", TrendTimeType::From), keyword(s, pos, "TL", TrendTimeType::Until)),
    )
}

/// `AT`, `FM` or `TL` and a time of day.
pub open spec fn marked_time(s: Seq<u8>, pos: int) -> Option<(TrendTime, int)> {
    match trend_time_type(s, pos) {
        None => None,
        Some((time_type, p)) => match zulu_time(s, p) {
            Some((time, e)) => Some((TrendTime { time_type, time }, e)),
            None => None,
        },
    }
}

/// Two times of day with a slash between: the change sets in from the
/// first.
pub open spec fn period(s: Seq<u8>, pos: int) -> Option<(TrendTime, int)> {
    match zulu_time(s, pos) {
        None => None,
        Some((time, p)) => match after(s, p, "/") {
            None => None,
            Some(q) => match zulu_time(s, q) {
                Some((_, e)) => Some((TrendTime { time_type: TrendTimeType::From, time }, e)),
                None => None,
            },
        },
    }
}

/// The time of a trend.
pub open spec fn trend_time(s: Seq<u8>, pos: int) -> Option<(TrendTime, int)> {
    or(marked_time(s, pos), period(s, pos))
}

/// A weather sequence where one stands at `pos`, else no weather.
pub open spec fn weather_or_none(s: Seq<u8>, pos: int) -> (Seq<WeatherModel>, int) {
    match weather_sequence(s, pos) {
        Some(l) => l,
        None => (Seq::empty(), pos),
    }
}

/// `BECMG` or `TEMPO`: whether the trend is a becoming one.
pub open spec fn trend_kind(s: Seq<u8>, pos: int) -> Option<(bool, int)> {
    or(keyword(s, pos, "BECMG", true), keyword(s, pos, "TEMPO", false))
}

/// What follows `BECMG` or `TEMPO`: time, wind, visibility, weather, `NSW`,
/// cloud layers and colour state, each where it is given, with whitespace
/// between and behind them.
#[verifier::opaque]
pub open spec fn trend_report(s: Seq<u8>, pos: int) -> (TrendReportModel, int) {
    let t = optional(trend_time(s, whitespace(s, pos)), whitespace(s, pos));
    let w = flattened(wind(s, whitespace(s, t.1)), whitespace(s, t.1));
    let v = flattened(visibility(s, whitespace(s, w.1)), whitespace(s, w.1));
    let x = weather_or_none(s, whitespace(s, v.1));
    let n = maybe(s, whitespace(s, x.1), "NSW");
    let c = cloud_layers(s, whitespace(s, n.1), Seq::empty());
    let k = optional(color_state(s, whitespace(s, c.1)), whitespace(s, c.1));
    (
        TrendReportModel {
            time: t.0,
            wind: w.0,
            visibility: v.0,
            weather: x.0,
            cloud_cover: c.0,
            color_state: k.0,
        },
        whitespace(s, k.1),
    )
}

/// One trend: no significant change, or `BECMG` or `TEMPO` with what is
/// forecast.
#[verifier::opaque]
pub open spec fn trend(s: Seq<u8>, pos: int) -> Option<(TrendModel, int)> {
    match no_change(s, pos) {
        Some(e) => Some((TrendModel::NoSignificantChange, e)),
        None => match trend_kind(s, pos) {
            None => None,
            Some((becoming, p)) => {
                let r = trend_report(s, p);
                Some(
                    (
                        if becoming {
                            TrendModel::Becoming(r.0)
                        } else {
                            TrendModel::Temporarily(r.0)
                        },
                        r.1,
                    ),
                )
            },
        },
    }
}

/// The trends that follow the one that ended at `pos`, added to `acc` in
/// the order in which they stand.
pub open spec fn more_trends(s: Seq<u8>, pos: int, acc: Seq<TrendModel>) -> (Seq<TrendModel>, int)
    decreases s.len() - pos,
{
    match trend(s, whitespace(s, pos)) {
        Some((t, p)) => if pos < p <= s.len() {
            more_trends(s, p, acc.push(t))
        } else {
            (acc, pos)
        },
        None => (acc, pos),
    }
}

/// Zero or more trends, in the order in which they stand.
#[verifier::opaque]
pub open spec fn trends(s: Seq<u8>, pos: int) -> (Seq<TrendModel>, int) {
    match trend(s, pos) {
        None => (Seq::empty(), pos),
        Some((t, p)) => more_trends(s, p, seq![t]),
    }
}

/// What a trend parser returned, held against the grammar.
pub open spec fn agrees_trend(
    r: Option<(Trend, usize)>,
    m: Option<(TrendModel, int)>,
    pos: usize,
    len: usize,
) -> bool {
    match r {
        Some((t, p)) => m == Some((t@, p as int)) && pos <= p <= len,
        None => m is None,
    }
}

/// The models of a sequence with one more trend are the models of the
/// sequence with the model of that trend behind them.
pub proof fn lemma_trend_models_push(v: Seq<Trend>, t: Trend)
    ensures
        trend_models(v.push(t)) == trend_models(v).push(t@),
{
    assert(trend_models(v.push(t)) =~= trend_models(v).push(t@));
}

fn eat_no_change(input: &[u8], pos: usize) -> (r: Option<usize>)
    requires
        pos <= input.len(),
    ensures
        agrees_at(r, no_change(input@, pos as int), pos, input.len()),
{
    let r = eat(input, pos, "NOSIG");
    if r.is_some() {
        return r;
    }
    let r = eat(input, pos, "NOISIG");
    if r.is_some() {
        return r;
    }
    let r = eat(input, pos, "N0SIG");
    if r.is_some() {
        return r;
    }
    let r = eat(input, pos, "NOS16");
    if r.is_some() {
        return r;
    }
    let r = eat(input, pos, "NOSING");
    if r.is_some() {
        return r;
    }
    let r = eat(input, pos, "NOSG");
    if r.is_some() {
        return r;
    }
    eat(input, pos, "NSG")
}

fn eat_trend_time_type(input: &[u8], pos: usize) -> (r: Option<(TrendTimeType, usize)>)
    requires
        pos <= input.len(),
    ensures
        agrees(r, trend_time_type(input@, pos as int), pos, input.len()),
{
    let r = eat_keyword(input, pos, "AT", TrendTimeType::At);
    if r.is_some() {
        return r;
    }
    let r = eat_keyword(input, pos, "FM", TrendTimeType::From);
    if r.is_some() {
        return r;
    }
    eat_keyword(input, pos, "TL", TrendTimeType::Until)
}

fn eat_marked_time(input: &[u8], pos: usize) -> (r: Option<(TrendTime, usize)>)
    requires
        pos <= input.len(),
    ensures
        agrees(r, marked_time(input@, pos as int), pos, input.len()),
{
    match eat_trend_time_type(input, pos) {
        None => None,
        Some((time_type, p)) => match eat_zulu_time(input, p) {
            Some((time, e)) => Some((TrendTime { time_type, time }, e)),
            None => None,
        },
    }
}

fn eat_period(input: &[u8], pos: usize) -> (r: Option<(TrendTime, usize)>)
    requires
        pos <= input.len(),
    ensures
        agrees(r, period(input@, pos as int), pos, input.len()),
{
    match eat_zulu_time(input, pos) {
        None => None,
        Some((time, p)) => match eat(input, p, "/") {
            None => None,
            Some(q) => match eat_zulu_time(input, q) {
                Some((_, e)) => Some((TrendTime { time_type: TrendTimeType::From, time }, e)),
                None => None,
            },
        },
    }
}

fn eat_trend_time(input: &[u8], pos: usize) -> (r: Option<(TrendTime, usize)>)
    requires
        pos <= input.len(),
    ensures
        agrees(r, trend_time(input@, pos as int), pos, input.len()),
{
    let r = eat_marked_time(input, pos);
    if r.is_some() {
        return r;
    }
    eat_period(input, pos)
}

/// Reads a weather sequence where one stands at `pos`.
pub fn eat_weather_or_none(input: &[u8], pos: usize) -> (r: (Vec<Weather>, usize))
    requires
        pos <= input.len(),
    ensures
        weather_models(r.0@) == weather_or_none(input@, pos as int).0,
        r.1 == weather_or_none(input@, pos as int).1,
        pos <= r.1 <= input.len(),
{
    match parse_weather_sequence(input, pos) {
        Some((l, e)) => (l, e),
        None => {
            let l: Vec<Weather> = Vec::new();
            assert(weather_models(l@) =~= Seq::empty());
            (l, pos)
        },
    }
}

fn eat_trend_kind(input: &[u8], pos: usize) -> (r: Option<(bool, usize)>)
    requires
        pos <= input.len(),
    ensures
        agrees(r, trend_kind(input@, pos as int), pos, input.len()),
{
    let r = eat_keyword(input, pos, "BECMG", true);
    if r.is_some() {
        return r;
    }
    eat_keyword(input, pos, "TEMPO", false)
}

fn eat_trend_report(input: &[u8], pos: usize) -> (r: (TrendReport, usize))
    requires
        pos <= input.len(),
    ensures
        r.0@ == trend_report(input@, pos as int).0,
        r.1 == trend_report(input@, pos as int).1,
        pos <= r.1 <= input.len(),
{
    reveal(trend_report);
    let p = skip_whitespace(input, pos);
    let t = optional_at(eat_trend_time(input, p), p);
    let p = skip_whitespace(input, t.1);
    let w = flattened_at(parse_wind(input, p), p);
    let p = skip_whitespace(input, w.1);
    let v = flattened_at(parse_visibility(input, p), p);
    let x = eat_weather_or_none(input, skip_whitespace(input, v.1));
    let n = eat_maybe(input, skip_whitespace(input, x.1), "NSW");
    let mut layers: Vec<CloudCover> = Vec::new();
    let c = parse_cloud_layers(input, skip_whitespace(input, n.1), &mut layers);
    let p = skip_whitespace(input, c);
    let k = optional_at(eat_color_state(input, p), p);
    (
        TrendReport {
            time: t.0,
            wind: w.0,
            visibility: v.0,
            weather: x.0,
            cloud_cover: layers,
            color_state: k.0,
        },
        skip_whitespace(input, k.1),
    )
}

/// Reads one trend at `pos`.
pub fn parse_trend(input: &[u8], pos: usize) -> (r: Option<(Trend, usize)>)
    requires
        pos <= input.len(),
    ensures
        agrees_trend(r, trend(input@, pos as int), pos, input.len()),
{
    reveal(trend);
    match eat_no_change(input, pos) {
        Some(e) => Some((Trend::NoSignificantChange, e)),
        None => match eat_trend_kind(input, pos) {
            None => None,
            Some((becoming, p)) => {
                let r = eat_trend_report(input, p);
                if becoming {
                    Some((Trend::Becoming(r.0), r.1))
                } else {
                    Some((Trend::Temporarily(r.0), r.1))
                }
            },
        },
    }
}

/// Reads zero or more trends at `pos`.
pub fn parse_trends(input: &[u8], pos: usize) -> (r: (Vec<Trend>, usize))
    requires
        pos <= input.len(),
    ensures
        trend_models(r.0@) == trends(input@, pos as int).0,
        r.1 == trends(input@, pos as int).1,
        pos <= r.1 <= input.len(),
{
    reveal(trends);
    let mut acc: Vec<Trend> = Vec::new();
    assert(trend_models(acc@) =~= Seq::empty());
    match parse_trend(input, pos) {
        None => (acc, pos),
        Some((first, start)) => {
            proof {
                lemma_trend_models_push(acc@, first);
                assert(trend_models(acc@).push(first@) =~= seq![first@]);
            }
            acc.push(first);
            let mut cur: usize = start;
            loop
                invariant
                    pos <= start <= cur <= input.len(),
                    trends(input@, pos as int) == more_trends(
                        input@,
                        cur as int,
                        trend_models(acc@),
                    ),
                decreases input.len() - cur,
            {
                match parse_trend(input, skip_whitespace(input, cur)) {
                    Some((t, p)) => {
                        if cur < p {
                            proof {
                                lemma_trend_models_push(acc@, t);
                            }
                            acc.push(t);
                            cur = p;
                        } else {
                            return (acc, cur);
                        }
                    },
                    None => {
                        return (acc, cur);
                    },
                }
            }
        },
    }
}

} // verus!
