//! The assembler: the groups of a report in the order in which they may
//! stand, some of them at more than one place, and the merged result.

use crate::error::{missing, missing_at, ErrorKind, Expected, ParseError};
use crate::lexical::{
    after, eat, eat_icao_identifier, eat_maybe, find_byte, flattened, flattened_at, has,
    icao_identifier, maybe, next_byte, optional, optional_at, or, run_end, skip_run,
    skip_whitespace, span, starts_with, whitespace, Span, DOLLAR, SLASH,
};
use crate::metar::cloud::{cloud_layers, parse_cloud_layers};
use crate::metar::groups::{
    accumulated_rainfall, color, eat_observation_flags, eat_observation_validity_range,
    extra_pressures, no_flags, observation_flags, observation_time, observation_validity_range,
    parse_accumulated_rainfall, parse_color, parse_observation_time, parse_pressure,
    parse_temperatures, parse_water_conditions, pressure, report_name, skip_extra_pressures,
    skip_report_name, temperatures, water_conditions,
};
use crate::metar::runway::{
    parse_runway_reports, parse_runway_visibilities, reports_within, runway_reports,
    runway_visibilities, visibilities_within,
};
use crate::metar::trend::{eat_weather_or_none, parse_trends, trends, weather_or_none};
use crate::metar::visibility::{parse_visibility, visibility};
use crate::metar::weather::{parse_recent_weather_sequence, recent_weather_sequence};
use crate::metar::wind::{parse_wind, wind};
use crate::tokens::{
    trend_models, weather_models, MetarReport, MetarReportModel, ObservationFlags, Weather,
    WeatherModel, ZuluDateTime, ZuluTimeRange,
};
use vstd::prelude::*;

verus! {

/// What stands before the weather of a report.
#[derive(Clone, Copy, Debug, PartialEq, Eq, Structural)]
pub struct Heading {
    pub identifier: Span,
    pub observation_time: Option<ZuluDateTime>,
    pub observation_validity_range: Option<ZuluTimeRange>,
    pub observation_flags: ObservationFlags,
}

/// Where the station identifier must stand: behind whitespace, the name of
/// the report and the observation flags, each where it is given.
pub open spec fn identifier_position(s: Seq<u8>) -> int {
    whitespace(s, leading_flags(s).1)
}

/// The observation flags that stand before the identifier.
pub open spec fn leading_flags(s: Seq<u8>) -> (ObservationFlags, int) {
    observation_flags(s, whitespace(s, report_name(s, whitespace(s, 0))), no_flags())
}

/// The heading of a report: the identifier, which must be there, then the
/// time of the observation, the range it is valid for, a second name of the
/// report and more flags, each where it is given. Flags count wherever they
/// stand, before the identifier or behind it.
pub open spec fn heading(s: Seq<u8>) -> Option<(Heading, int)> {
    match icao_identifier(s, identifier_position(s)) {
        None => None,
        Some((identifier, q)) => {
            let t = optional(observation_time(s, whitespace(s, q)), whitespace(s, q));
            let r = optional(
                observation_validity_range(s, whitespace(s, t.1)),
                whitespace(s, t.1),
            );
            let g = observation_flags(
                s,
                whitespace(s, report_name(s, whitespace(s, r.1))),
                leading_flags(s).0,
            );
            Some(
                (
                    Heading {
                        identifier,
                        observation_time: t.0,
                        observation_validity_range: r.0,
                        observation_flags: g.0,
                    },
                    whitespace(s, g.1),
                ),
            )
        },
    }
}

/// A report that holds the heading `h` and nothing else yet.
pub open spec fn started(h: Heading) -> MetarReportModel {
    MetarReportModel {
        identifier: h.identifier,
        observation_time: h.observation_time,
        observation_validity_range: h.observation_validity_range,
        observation_flags: h.observation_flags,
        wind: None,
        visibility: None,
        runway_visibilities: Seq::empty(),
        runway_reports: Seq::empty(),
        weather: Seq::empty(),
        recent_weather: Seq::empty(),
        cloud_cover: Seq::empty(),
        cavok: false,
        temperatures: None,
        pressure: None,
        accumulated_rainfall: None,
        color: None,
        water_conditions: None,
        trends: Seq::empty(),
        remark: None,
        maintenance_needed: false,
    }
}

/// A recent weather sequence where one stands at `pos`, else none.
pub open spec fn recent_or_none(s: Seq<u8>, pos: int) -> (Seq<WeatherModel>, int) {
    match recent_weather_sequence(s, pos) {
        Some(l) => l,
        None => (Seq::empty(), pos),
    }
}

/// The first of two optional values that is there.
pub open spec fn first_of<T>(a: Option<T>, b: Option<T>) -> Option<T> {
    if a is Some {
        a
    } else {
        b
    }
}

/// The groups between the heading and the place of `CAVOK`: wind,
/// temperatures, visibility, runway visibilities, recent weather, weather and
/// cloud layers, each where it is given, with whitespace between and behind
/// them. Every sequence is put behind what `m` holds of it.
#[verifier::opaque]
pub open spec fn observed(s: Seq<u8>, m: MetarReportModel, pos: int) -> (MetarReportModel, int) {
    let w = flattened(wind(s, pos), pos);
    let t = flattened(temperatures(s, whitespace(s, w.1)), whitespace(s, w.1));
    let v = flattened(visibility(s, whitespace(s, t.1)), whitespace(s, t.1));
    let r = runway_visibilities(s, whitespace(s, v.1), m.runway_visibilities);
    let e = recent_or_none(s, whitespace(s, r.1));
    let x = weather_or_none(s, whitespace(s, e.1));
    let c = cloud_layers(s, whitespace(s, x.1), m.cloud_cover);
    (
        MetarReportModel {
            wind: w.0,
            temperatures: first_of(m.temperatures, t.0),
            visibility: v.0,
            runway_visibilities: r.0,
            recent_weather: m.recent_weather + e.0,
            weather: m.weather + x.0,
            cloud_cover: c.0,
            ..m
        },
        whitespace(s, c.1),
    )
}

/// `CAVOK` and the whitespace behind it, where it is written.
pub open spec fn cavok(s: Seq<u8>, pos: int) -> (bool, int) {
    match after(s, pos, "CAVOK") {
        Some(p) => (true, whitespace(s, p)),
        None => (false, pos),
    }
}

/// The groups from the place of `CAVOK` on: `CAVOK`, temperatures,
/// pressure, further pressures, which are not kept, weather, cloud layers
/// and temperatures again, and rainfall. Of the temperatures the first that
/// is there counts.
#[verifier::opaque]
pub open spec fn settled(s: Seq<u8>, m: MetarReportModel, pos: int) -> (MetarReportModel, int) {
    let k = cavok(s, pos);
    let t1 = flattened(temperatures(s, k.1), k.1);
    let p = flattened(pressure(s, whitespace(s, t1.1)), whitespace(s, t1.1));
    let q = extra_pressures(s, whitespace(s, p.1));
    let x = weather_or_none(s, whitespace(s, q));
    let c = cloud_layers(s, whitespace(s, x.1), m.cloud_cover);
    let t2 = flattened(temperatures(s, whitespace(s, c.1)), whitespace(s, c.1));
    let f = optional(accumulated_rainfall(s, whitespace(s, t2.1)), whitespace(s, t2.1));
    (
        MetarReportModel {
            cavok: k.0,
            temperatures: first_of(m.temperatures, first_of(t1.0, t2.0)),
            pressure: p.0,
            weather: m.weather + x.0,
            cloud_cover: c.0,
            accumulated_rainfall: f.0,
            ..m
        },
        whitespace(s, f.1),
    )
}

/// The groups behind the rainfall: recent weather, cloud layers and
/// temperatures once more, colour state, runway visibilities, runway states
/// and water conditions.
#[verifier::opaque]
pub open spec fn supplemented(s: Seq<u8>, m: MetarReportModel, pos: int) -> (
    MetarReportModel,
    int,
) {
    let e = recent_or_none(s, pos);
    let c = cloud_layers(s, whitespace(s, e.1), m.cloud_cover);
    let t = flattened(temperatures(s, whitespace(s, c.1)), whitespace(s, c.1));
    let l = optional(color(s, whitespace(s, t.1)), whitespace(s, t.1));
    let v = runway_visibilities(s, whitespace(s, l.1), m.runway_visibilities);
    let r = runway_reports(s, whitespace(s, v.1));
    let w = optional(water_conditions(s, whitespace(s, r.1)), whitespace(s, r.1));
    (
        MetarReportModel {
            recent_weather: m.recent_weather + e.0,
            cloud_cover: c.0,
            temperatures: first_of(m.temperatures, t.0),
            color: l.0,
            runway_visibilities: v.0,
            runway_reports: r.0,
            water_conditions: w.0,
            ..m
        },
        whitespace(s, w.1),
    )
}

/// The keyword that opens a remark.
pub open spec fn remark_keyword(s: Seq<u8>, pos: int) -> Option<int> {
    or(
        after(s, pos, ":RMK"),
        or(after(s, pos, "R MK"), or(after(s, pos, "RMK"), after(s, pos, "REMARK"))),
    )
}

/// The remark where there is one: from its keyword up to the first `$`, or
/// to the end of the input.
pub open spec fn remark(s: Seq<u8>, pos: int) -> (Option<Span>, int) {
    match remark_keyword(s, pos) {
        Some(p) => (Some(span(pos, next_byte(s, p, DOLLAR))), next_byte(s, p, DOLLAR)),
        None => (None, pos),
    }
}

/// The last groups: trends, the remark, and `$` where maintenance is
/// needed.
#[verifier::opaque]
pub open spec fn concluded(s: Seq<u8>, m: MetarReportModel, pos: int) -> (MetarReportModel, int) {
    let d = trends(s, pos);
    let r = remark(s, whitespace(s, d.1));
    let n = maybe(s, r.1, "$");
    (MetarReportModel { trends: d.0, remark: r.0, maintenance_needed: n.0, ..m }, n.1)
}

/// Where what may close a report ends: whitespace, a run of slashes,
/// whitespace, and `=` with everything behind it.
pub open spec fn closing(s: Seq<u8>, pos: int) -> int {
    let p = whitespace(s, run_end(s, whitespace(s, pos), SLASH));
    if has(s, p, "=") {
        s.len() as int
    } else {
        whitespace(s, p)
    }
}

/// Where `CAVOK` may stand in a report with a heading: behind the groups
/// that come before it.
pub open spec fn cavok_position(s: Seq<u8>) -> int
    recommends
        heading(s) is Some,
{
    observed(s, started(heading(s).unwrap().0), heading(s).unwrap().1).1
}

/// The report of the groups behind the heading `h`, which ended at `pos`,
/// and the position behind its last group.
pub open spec fn body(s: Seq<u8>, h: Heading, pos: int) -> (MetarReportModel, int) {
    let a = observed(s, started(h), pos);
    let b = settled(s, a.0, a.1);
    let c = supplemented(s, b.0, b.1);
    concluded(s, c.0, c.1)
}

/// The report that an input holds, and the position behind its last group,
/// where the input has a heading.
pub open spec fn groups(s: Seq<u8>) -> Option<(MetarReportModel, int)> {
    match heading(s) {
        Some((h, p)) => Some(body(s, h, p)),
        None => None,
    }
}

/// The report that an input holds: it has a heading, and what may close a
/// report leads from its last group to the end of the input.
pub open spec fn metar(s: Seq<u8>) -> Option<MetarReportModel> {
    match groups(s) {
        Some((m, e)) => if closing(s, e) >= s.len() {
            Some(m)
        } else {
            None
        },
        None => None,
    }
}

/// The error of an input that holds no report: the identifier is missing,
/// or something is left that no group accounts for.
pub open spec fn metar_error(s: Seq<u8>) -> ParseError {
    match groups(s) {
        None => missing(s, identifier_position(s), 4, Expected::IcaoIdentifier),
        Some((_, e)) => ParseError {
            kind: ErrorKind::LexicalMismatch,
            position: closing(s, e) as usize,
            expected: Expected::EndOfInput,
        },
    }
}

/// Reads the heading of a report: `Ok` with the heading and the position
/// behind it, or the position at which the identifier is missing.
pub fn parse_heading(input: &[u8]) -> (r: Result<(Heading, usize), usize>)
    ensures
        match r {
            Ok((h, p)) => heading(input@) == Some((h, p as int)) && p <= input.len()
                && h.identifier.lies_within(input.len()) && h.identifier.end - h.identifier.start
                == 4,
            Err(p) => heading(input@) is None && p == identifier_position(input@) && p
                <= input.len(),
        },
{
    let p = skip_whitespace(input, skip_report_name(input, skip_whitespace(input, 0)));
    let f = eat_observation_flags(
        input,
        p,
        ObservationFlags {
            auto: false,
            nil: false,
            cor: false,
            cca: false,
            ccb: false,
            ccc: false,
            rtd: false,
        },
    );
    let at = skip_whitespace(input, f.1);
    match eat_icao_identifier(input, at) {
        None => Err(at),
        Some((identifier, q)) => {
            let p = skip_whitespace(input, q);
            let t = optional_at(parse_observation_time(input, p), p);
            let p = skip_whitespace(input, t.1);
            let r = optional_at(eat_observation_validity_range(input, p), p);
            let g = eat_observation_flags(
                input,
                skip_whitespace(input, skip_report_name(input, skip_whitespace(input, r.1))),
                f.0,
            );
            Ok(
                (
                    Heading {
                        identifier,
                        observation_time: t.0,
                        observation_validity_range: r.0,
                        observation_flags: g.0,
                    },
                    skip_whitespace(input, g.1),
                ),
            )
        },
    }
}

/// The spans of a report lie within an input of `len` bytes, and that of
/// the identifier covers four of them.
pub open spec fn spans_within(r: MetarReport, len: usize) -> bool {
    &&& r.identifier.lies_within(len)
    &&& r.identifier.end - r.identifier.start == 4
    &&& r.remark matches Some(m) ==> m.lies_within(len)
    &&& visibilities_within(r.runway_visibilities@, len)
    &&& reports_within(r.runway_reports@, len)
}

fn eat_recent_or_none(input: &[u8], pos: usize) -> (r: (Vec<Weather>, usize))
    requires
        pos <= input.len(),
    ensures
        weather_models(r.0@) == recent_or_none(input@, pos as int).0,
        r.1 == recent_or_none(input@, pos as int).1,
        pos <= r.1 <= input.len(),
{
    match parse_recent_weather_sequence(input, pos) {
        Some((l, e)) => (l, e),
        None => {
            let l: Vec<Weather> = Vec::new();
            assert(weather_models(l@) =~= Seq::empty());
            (l, pos)
        },
    }
}

fn eat_cavok(input: &[u8], pos: usize) -> (r: (bool, usize))
    requires
        pos <= input.len(),
    ensures
        r.0 == cavok(input@, pos as int).0,
        r.1 == cavok(input@, pos as int).1,
        pos <= r.1 <= input.len(),
{
    match eat(input, pos, "CAVOK") {
        Some(p) => (true, skip_whitespace(input, p)),
        None => (false, pos),
    }
}

fn pick<T>(a: Option<T>, b: Option<T>) -> (r: Option<T>)
    ensures
        r == first_of(a, b),
{
    if a.is_some() {
        a
    } else {
        b
    }
}

fn eat_remark(input: &[u8], pos: usize) -> (r: (Option<Span>, usize))
    requires
        pos <= input.len(),
    ensures
        r.0 == remark(input@, pos as int).0,
        r.1 == remark(input@, pos as int).1,
        pos <= r.1 <= input.len(),
        r.0 matches Some(m) ==> m.lies_within(input.len()),
{
    let a = eat(input, pos, ":RMK");
    let b = if a.is_some() {
        a
    } else {
        eat(input, pos, "R MK")
    };
    let c = if b.is_some() {
        b
    } else {
        eat(input, pos, "RMK")
    };
    let d = if c.is_some() {
        c
    } else {
        eat(input, pos, "REMARK")
    };
    match d {
        Some(p) => {
            let e = find_byte(input, p, DOLLAR);
            (Some(Span { start: pos, end: e }), e)
        },
        None => (None, pos),
    }
}

fn eat_closing(input: &[u8], pos: usize) -> (e: usize)
    requires
        pos <= input.len(),
    ensures
        e == closing(input@, pos as int),
        pos <= e <= input.len(),
{
    let p = skip_whitespace(input, skip_run(input, skip_whitespace(input, pos), SLASH));
    if starts_with(input, p, "=") {
        input.len()
    } else {
        skip_whitespace(input, p)
    }
}

/// The models of two sequences of weather groups, one behind the other.
pub proof fn lemma_models_add(a: Seq<Weather>, b: Seq<Weather>)
    ensures
        weather_models(a + b) == weather_models(a) + weather_models(b),
{
    assert(weather_models(a + b) =~= weather_models(a) + weather_models(b));
}

/// `a` with the groups of `b` behind them.
fn joined(a: Vec<Weather>, b: Vec<Weather>) -> (r: Vec<Weather>)
    ensures
        weather_models(r@) == weather_models(a@) + weather_models(b@),
{
    let mut r = a;
    let mut b = b;
    proof {
        lemma_models_add(r@, b@);
    }
    r.append(&mut b);
    r
}

fn start(h: Heading) -> (r: MetarReport)
    ensures
        r@ == started(h),
        r.runway_visibilities@.len() == 0,
        r.runway_reports@.len() == 0,
{
    let r = MetarReport {
        identifier: h.identifier,
        observation_time: h.observation_time,
        observation_validity_range: h.observation_validity_range,
        observation_flags: h.observation_flags,
        wind: None,
        visibility: None,
        runway_visibilities: Vec::new(),
        runway_reports: Vec::new(),
        weather: Vec::new(),
        recent_weather: Vec::new(),
        cloud_cover: Vec::new(),
        cavok: false,
        temperatures: None,
        pressure: None,
        accumulated_rainfall: None,
        color: None,
        water_conditions: None,
        trends: Vec::new(),
        remark: None,
        maintenance_needed: false,
    };
    assert(weather_models(r.weather@) =~= Seq::empty());
    assert(weather_models(r.recent_weather@) =~= Seq::empty());
    assert(trend_models(r.trends@) =~= Seq::empty());
    r
}

fn parse_observed(input: &[u8], report: MetarReport, pos: usize) -> (r: (MetarReport, usize))
    requires
        pos <= input.len(),
        spans_within(report, input.len()),
    ensures
        r.0@ == observed(input@, report@, pos as int).0,
        r.1 == observed(input@, report@, pos as int).1,
        pos <= r.1 <= input.len(),
        spans_within(r.0, input.len()),
{
    reveal(observed);
    let w = flattened_at(parse_wind(input, pos), pos);
    let p = skip_whitespace(input, w.1);
    let t = flattened_at(parse_temperatures(input, p), p);
    let p = skip_whitespace(input, t.1);
    let v = flattened_at(parse_visibility(input, p), p);
    let mut runway_visibilities = report.runway_visibilities;
    let p = parse_runway_visibilities(input, skip_whitespace(input, v.1), &mut runway_visibilities);
    let e = eat_recent_or_none(input, skip_whitespace(input, p));
    let x = eat_weather_or_none(input, skip_whitespace(input, e.1));
    let mut cloud_cover = report.cloud_cover;
    let p = parse_cloud_layers(input, skip_whitespace(input, x.1), &mut cloud_cover);
    (
        MetarReport {
            wind: w.0,
            temperatures: pick(report.temperatures, t.0),
            visibility: v.0,
            runway_visibilities,
            recent_weather: joined(report.recent_weather, e.0),
            weather: joined(report.weather, x.0),
            cloud_cover,
            ..report
        },
        skip_whitespace(input, p),
    )
}

fn parse_settled(input: &[u8], report: MetarReport, pos: usize) -> (r: (MetarReport, usize))
    requires
        pos <= input.len(),
        spans_within(report, input.len()),
    ensures
        r.0@ == settled(input@, report@, pos as int).0,
        r.1 == settled(input@, report@, pos as int).1,
        pos <= r.1 <= input.len(),
        spans_within(r.0, input.len()),
{
    reveal(settled);
    let k = eat_cavok(input, pos);
    let t1 = flattened_at(parse_temperatures(input, k.1), k.1);
    let p = skip_whitespace(input, t1.1);
    let pr = flattened_at(parse_pressure(input, p), p);
    let q = skip_extra_pressures(input, skip_whitespace(input, pr.1));
    let x = eat_weather_or_none(input, skip_whitespace(input, q));
    let mut cloud_cover = report.cloud_cover;
    let p = parse_cloud_layers(input, skip_whitespace(input, x.1), &mut cloud_cover);
    let p = skip_whitespace(input, p);
    let t2 = flattened_at(parse_temperatures(input, p), p);
    let p = skip_whitespace(input, t2.1);
    let f = optional_at(parse_accumulated_rainfall(input, p), p);
    (
        MetarReport {
            cavok: k.0,
            temperatures: pick(report.temperatures, pick(t1.0, t2.0)),
            pressure: pr.0,
            weather: joined(report.weather, x.0),
            cloud_cover,
            accumulated_rainfall: f.0,
            ..report
        },
        skip_whitespace(input, f.1),
    )
}

fn parse_supplemented(input: &[u8], report: MetarReport, pos: usize) -> (r: (MetarReport, usize))
    requires
        pos <= input.len(),
        spans_within(report, input.len()),
    ensures
        r.0@ == supplemented(input@, report@, pos as int).0,
        r.1 == supplemented(input@, report@, pos as int).1,
        pos <= r.1 <= input.len(),
        spans_within(r.0, input.len()),
{
    reveal(supplemented);
    let e = eat_recent_or_none(input, pos);
    let mut cloud_cover = report.cloud_cover;
    let p = parse_cloud_layers(input, skip_whitespace(input, e.1), &mut cloud_cover);
    let p = skip_whitespace(input, p);
    let t = flattened_at(parse_temperatures(input, p), p);
    let p = skip_whitespace(input, t.1);
    let l = optional_at(parse_color(input, p), p);
    let mut runway_visibilities = report.runway_visibilities;
    let p = parse_runway_visibilities(input, skip_whitespace(input, l.1), &mut runway_visibilities);
    let reports = parse_runway_reports(input, skip_whitespace(input, p));
    let p = skip_whitespace(input, reports.1);
    let w = optional_at(parse_water_conditions(input, p), p);
    (
        MetarReport {
            recent_weather: joined(report.recent_weather, e.0),
            cloud_cover,
            temperatures: pick(report.temperatures, t.0),
            color: l.0,
            runway_visibilities,
            runway_reports: reports.0,
            water_conditions: w.0,
            ..report
        },
        skip_whitespace(input, w.1),
    )
}

fn parse_concluded(input: &[u8], report: MetarReport, pos: usize) -> (r: (MetarReport, usize))
    requires
        pos <= input.len(),
        spans_within(report, input.len()),
    ensures
        r.0@ == concluded(input@, report@, pos as int).0,
        r.1 == concluded(input@, report@, pos as int).1,
        pos <= r.1 <= input.len(),
        spans_within(r.0, input.len()),
{
    reveal(concluded);
    let d = parse_trends(input, pos);
    let m = eat_remark(input, skip_whitespace(input, d.1));
    let n = eat_maybe(input, m.1, "$");
    (MetarReport { trends: d.0, remark: m.0, maintenance_needed: n.0, ..report }, n.1)
}

/// Reads the groups of a report: `Ok` with the report and the position
/// behind its last group, or the position at which the identifier is
/// missing.
pub fn parse_groups(input: &[u8]) -> (r: Result<(MetarReport, usize), usize>)
    ensures
        match r {
            Ok((report, e)) => groups(input@) == Some((report@, e as int)) && e <= input.len()
                && spans_within(report, input.len()),
            Err(p) => groups(input@) is None && p == identifier_position(input@) && p
                <= input.len(),
        },
{
    match parse_heading(input) {
        Err(at) => Err(at),
        Ok((h, p)) => {
            let a = parse_observed(input, start(h), p);
            let b = parse_settled(input, a.0, a.1);
            let c = parse_supplemented(input, b.0, b.1);
            Ok(parse_concluded(input, c.0, c.1))
        },
    }
}

/// Parses a METAR or SPECI report. An input is accepted where it has a
/// station identifier and every byte of it belongs to a group or to what
/// may close a report; the result then holds what the groups report. Else
/// the one error says where the identifier is missing, or where what is left
/// over begins.
pub fn parse_metar(input: &[u8]) -> (r: Result<MetarReport, ParseError>)
    ensures
        match r {
            Ok(report) => metar(input@) == Some(report@) && spans_within(report, input.len()),
            Err(e) => metar(input@) is None && e == metar_error(input@),
        },
{
    match parse_groups(input) {
        Err(at) => Err(missing_at(input, at, 4, Expected::IcaoIdentifier)),
        Ok((report, end)) => {
            let e = eat_closing(input, end);
            if e >= input.len() {
                Ok(report)
            } else {
                Err(
                    ParseError {
                        kind: ErrorKind::LexicalMismatch,
                        position: e,
                        expected: Expected::EndOfInput,
                    },
                )
            }
        },
    }
}

} // verus!
