//! The smaller groups of a report: time, flags, temperatures, pressure,
//! rainfall, colour state and water conditions.

use crate::lexical::{
    after, agrees, at_boundary, boundary_here, byte_is, decimal, digit_at, digit_here, eat,
    eat_decimal, eat_keyword, eat_maybe, eat_pointed_decimal, eat_two_digits, eat_whole_number,
    follows, keyword, maybe, or, peek, pointed_decimal, read_two_digits, run_end, skip_run,
    skip_whitespace, two_digit_value, two_digits, whitespace, whole_number, SLASH,
};
use crate::metar::visibility::{eat_visibility_unit, visibility_unit};
use crate::metar::wind::{eat_windspeed_unit, windspeed_unit};
use crate::tokens::{
    AccumulatedRainfall, Amount, Color, ColorState, Length, LengthUnit, ObservationFlag,
    ObservationFlags, Pressure, PressureUnit, Temperature, TemperatureUnit, Temperatures,
    WaterConditions, WaterSurfaceState, ZuluDateTime, ZuluTime, ZuluTimeRange,
};
use vstd::prelude::*;

verus! {

/// The name of the report: `METAR` or `SPECI`, where one is written.
pub open spec fn report_name(s: Seq<u8>, pos: int) -> int {
    match or(after(s, pos, "METAR"), after(s, pos, "SPECI")) {
        Some(p) => p,
        None => pos,
    }
}

/// A time of day: two digits for the hour, two for the minute.
pub open spec fn zulu_time(s: Seq<u8>, pos: int) -> Option<(ZuluTime, int)> {
    if two_digits(s, pos) is Some && two_digits(s, pos + 2) is Some {
        Some(
            (
                ZuluTime { hour: two_digit_value(s, pos), minute: two_digit_value(s, pos + 2) },
                pos + 4,
            ),
        )
    } else {
        None
    }
}

/// The time of the observation: day of the month, time of day, and `Z`
/// where it is written.
#[verifier::opaque]
pub open spec fn observation_time(s: Seq<u8>, pos: int) -> Option<(ZuluDateTime, int)> {
    match two_digits(s, pos) {
        None => None,
        Some(p) => match zulu_time(s, p) {
            None => None,
            Some((time, q)) => {
                let z = maybe(s, q, "Z");
                Some(
                    (
                        ZuluDateTime { day_of_month: two_digit_value(s, pos), time, is_zulu: z.0 },
                        z.1,
                    ),
                )
            },
        },
    }
}

/// Two times of day with a slash between.
#[verifier::opaque]
pub open spec fn observation_validity_range(s: Seq<u8>, pos: int) -> Option<
    (ZuluTimeRange, int),
> {
    match zulu_time(s, pos) {
        None => None,
        Some((begin, p)) => match after(s, p, "/") {
            None => None,
            Some(q) => match zulu_time(s, q) {
                Some((end, e)) => Some((ZuluTimeRange { begin, end }, e)),
                None => None,
            },
        },
    }
}

/// The keyword of an observation flag.
pub open spec fn observation_flag(s: Seq<u8>, pos: int) -> Option<(ObservationFlag, int)> {
    or(
        keyword(s, pos, "AUTO", ObservationFlag::Auto),
        or(
            keyword(s, pos, "NIL", ObservationFlag::Nil),
            or(
                keyword(s, pos, "COR", ObservationFlag::Cor),
                or(
                    keyword(s, pos, "CCA", ObservationFlag::Cca),
                    or(
                        keyword(s, pos, "CCB", ObservationFlag::Ccb),
                        or(
                            keyword(s, pos, "CCC", ObservationFlag::Ccc),
                            keyword(s, pos, "RTD", ObservationFlag::Rtd),
                        ),
                    ),
                ),
            ),
        ),
    )
}

/// No flag at all.
pub open spec fn no_flags() -> ObservationFlags {
    ObservationFlags {
        auto: false,
        nil: false,
        cor: false,
        cca: false,
        ccb: false,
        ccc: false,
        rtd: false,
    }
}

/// The flags of `acc`, and `f`.
pub open spec fn with_flag(acc: ObservationFlags, f: ObservationFlag) -> ObservationFlags {
    match f {
        ObservationFlag::Auto => ObservationFlags { auto: true, ..acc },
        ObservationFlag::Nil => ObservationFlags { nil: true, ..acc },
        ObservationFlag::Cor => ObservationFlags { cor: true, ..acc },
        ObservationFlag::Cca => ObservationFlags { cca: true, ..acc },
        ObservationFlag::Ccb => ObservationFlags { ccb: true, ..acc },
        ObservationFlag::Ccc => ObservationFlags { ccc: true, ..acc },
        ObservationFlag::Rtd => ObservationFlags { rtd: true, ..acc },
    }
}

/// The flags that follow the one that ended at `pos`, added to `acc`.
pub open spec fn more_flags(s: Seq<u8>, pos: int, acc: ObservationFlags) -> (
    ObservationFlags,
    int,
)
    decreases s.len() - pos,
{
    match observation_flag(s, whitespace(s, pos)) {
        Some((f, p)) => if pos < p <= s.len() {
            more_flags(s, p, with_flag(acc, f))
        } else {
            (acc, pos)
        },
        None => (acc, pos),
    }
}

/// Zero or more observation flags, added to `acc`.
#[verifier::opaque]
pub open spec fn observation_flags(s: Seq<u8>, pos: int, acc: ObservationFlags) -> (
    ObservationFlags,
    int,
) {
    match observation_flag(s, pos) {
        None => (acc, pos),
        Some((f, p)) => more_flags(s, p, with_flag(acc, f)),
    }
}

/// A temperature of `n` degrees Celsius, below zero where `negative`.
pub open spec fn celsius(negative: bool, n: u64) -> Temperature {
    let m: i64 = if n > i64::MAX {
        i64::MAX
    } else {
        n as i64
    };
    Temperature {
        value: if negative {
            (-m) as i64
        } else {
            m
        },
        unit: TemperatureUnit::DegreeCelsius,
    }
}

/// A temperature: a minus sign, `M` or `-`, where one is written, and
/// digits.
pub open spec fn temperature(s: Seq<u8>, pos: int) -> Option<(Temperature, int)> {
    let m = match or(after(s, pos, "M"), after(s, pos, "-")) {
        Some(p) => (true, p),
        None => (false, pos),
    };
    match whole_number(s, m.1) {
        Some((n, e)) => Some((celsius(m.0, n), e)),
        None => None,
    }
}

/// No unit of visibility or of wind speed stands at `pos`.
pub open spec fn no_unit_ahead(s: Seq<u8>, pos: int) -> bool {
    visibility_unit(s, pos) is None && windspeed_unit(s, pos) is None
}

/// An air temperature and the slash or point behind it.
pub open spec fn air_temperature(s: Seq<u8>, pos: int) -> Option<(Temperature, int)> {
    match temperature(s, pos) {
        None => None,
        Some((air, p)) => match or(after(s, p, "/"), after(s, p, ".")) {
            Some(q) => Some((air, q)),
            None => None,
        },
    }
}

/// An air temperature with a dew point that is marked as not reported.
pub open spec fn air_alone(s: Seq<u8>, pos: int) -> Option<(Option<Temperatures>, int)> {
    match air_temperature(s, pos) {
        None => None,
        Some((air, p)) => match or(after(s, p, "XX"), after(s, p, "//")) {
            Some(e) => if no_unit_ahead(s, e) {
                Some((Some(Temperatures { air, dewpoint: None }), e))
            } else {
                None
            },
            None => None,
        },
    }
}

/// An air temperature, and a dew point where one is written.
pub open spec fn air_and_dewpoint(s: Seq<u8>, pos: int) -> Option<(Option<Temperatures>, int)> {
    match air_temperature(s, pos) {
        None => None,
        Some((air, p)) => {
            let d = match temperature(s, p) {
                Some((t, e)) => (Some(t), e),
                None => (None, p),
            };
            if no_unit_ahead(s, d.1) {
                Some((Some(Temperatures { air, dewpoint: d.0 }), d.1))
            } else {
                None
            }
        },
    }
}

/// The temperature group: air temperature and dew point, neither followed
/// by a unit of visibility or wind speed; `XX/XX` reports nothing.
#[verifier::opaque]
pub open spec fn temperatures(s: Seq<u8>, pos: int) -> Option<(Option<Temperatures>, int)> {
    or(air_alone(s, pos), or(air_and_dewpoint(s, pos), keyword(s, pos, "XX/XX", None)))
}

/// The keyword of a pressure group and the unit it stands for: `A` for an
/// altimeter setting in hundredths of an inch of mercury, `Q`, `QNH` and
/// `QFE` for hectopascals.
pub open spec fn pressure_unit(s: Seq<u8>, pos: int) -> Option<(PressureUnit, int)> {
    or(
        keyword(s, pos, "QFE", PressureUnit::Hectopascal),
        or(
            keyword(s, pos, "QNH", PressureUnit::Hectopascal),
            or(
                keyword(s, pos, "Q", PressureUnit::Hectopascal),
                keyword(s, pos, "A", PressureUnit::HundredthInchOfMercury),
            ),
        ),
    )
}

/// The pressure group: a unit keyword and a number; four slashes or `NIL`
/// in place of the number report nothing.
#[verifier::opaque]
pub open spec fn pressure(s: Seq<u8>, pos: int) -> Option<(Option<Pressure>, int)> {
    match pressure_unit(s, pos) {
        None => None,
        Some((unit, p)) => match decimal(s, whitespace(s, p)) {
            Some((value, e)) => Some((Some(Pressure { value, unit }), e)),
            None => match or(
                after(s, whitespace(s, p), "////"),
                after(s, whitespace(s, p), "NIL"),
            ) {
                Some(e) => Some((None, e)),
                None => None,
            },
        },
    }
}

/// The end of the pressure groups that follow the one that ended at `pos`.
pub open spec fn more_pressures(s: Seq<u8>, pos: int) -> int
    decreases s.len() - pos,
{
    match pressure(s, whitespace(s, pos)) {
        Some((_, p)) => if pos < p <= s.len() {
            more_pressures(s, p)
        } else {
            pos
        },
        None => pos,
    }
}

/// The end of zero or more further pressure groups, which are not kept.
#[verifier::opaque]
pub open spec fn extra_pressures(s: Seq<u8>, pos: int) -> int {
    match pressure(s, pos) {
        None => pos,
        Some((_, p)) => more_pressures(s, p),
    }
}

/// A length in millimeters.
pub open spec fn millimeters(value: Amount) -> Length {
    Length { value, unit: LengthUnit::Millimeter }
}

/// Rainfall: `RF`, the recent amount, a slash and the past amount, both
/// with decimal places, in millimeters.
#[verifier::opaque]
pub open spec fn accumulated_rainfall(s: Seq<u8>, pos: int) -> Option<
    (AccumulatedRainfall, int),
> {
    match after(s, pos, "RF") {
        None => None,
        Some(p) => match pointed_decimal(s, p) {
            None => None,
            Some((recent, q)) => match after(s, q, "/") {
                None => None,
                Some(r) => match pointed_decimal(s, r) {
                    Some((past, e)) => Some(
                        (
                            AccumulatedRainfall {
                                recent: millimeters(recent),
                                past: millimeters(past),
                            },
                            e,
                        ),
                    ),
                    None => None,
                },
            },
        },
    }
}

/// The keyword of a colour state.
pub open spec fn color_state(s: Seq<u8>, pos: int) -> Option<(ColorState, int)> {
    or(
        keyword(s, pos, "BLU+", ColorState::BluePlus),
        or(
            keyword(s, pos, "BLU", ColorState::Blue),
            or(
                keyword(s, pos, "WHT", ColorState::White),
                or(
                    keyword(s, pos, "GRN", ColorState::Green),
                    or(
                        keyword(s, pos, "YLO1", ColorState::Yellow1),
                        or(
                            keyword(s, pos, "YLO2", ColorState::Yellow2),
                            or(
                                keyword(s, pos, "YLO", ColorState::Yellow),
                                or(
                                    keyword(s, pos, "AMB", ColorState::Amber),
                                    keyword(s, pos, "RED", ColorState::Red),
                                ),
                            ),
                        ),
                    ),
                ),
            ),
        ),
    )
}

/// The colour state group: `BLACK` where the airfield is closed, the
/// current state, and the next state where one is written, up to the end of
/// the token.
#[verifier::opaque]
pub open spec fn color(s: Seq<u8>, pos: int) -> Option<(Color, int)> {
    let b = maybe(s, pos, "BLACK");
    match color_state(s, whitespace(s, b.1)) {
        None => None,
        Some((current_color, p)) => match color_state(s, whitespace(s, p)) {
            Some((next, e)) => if at_boundary(s, e) {
                Some((Color { is_black: b.0, current_color, next_color: Some(next) }, e))
            } else if at_boundary(s, p) {
                Some((Color { is_black: b.0, current_color, next_color: None }, p))
            } else {
                None
            },
            None => if at_boundary(s, p) {
                Some((Color { is_black: b.0, current_color, next_color: None }, p))
            } else {
                None
            },
        },
    }
}

/// The state of the sea for the code figure `c`, an ASCII digit.
pub open spec fn surface_state(c: u8) -> WaterSurfaceState {
    if c == 48 {
        WaterSurfaceState::Glassy
    } else if c == 49 {
        WaterSurfaceState::Rippled
    } else if c == 50 {
        WaterSurfaceState::Smooth
    } else if c == 51 {
        WaterSurfaceState::Slight
    } else if c == 52 {
        WaterSurfaceState::Moderate
    } else if c == 53 {
        WaterSurfaceState::Rough
    } else if c == 54 {
        WaterSurfaceState::VeryRough
    } else if c == 55 {
        WaterSurfaceState::High
    } else if c == 56 {
        WaterSurfaceState::VeryHigh
    } else {
        WaterSurfaceState::Phenomenal
    }
}

/// `W` and the water temperature: two slashes for none, or digits; then
/// the slash that closes it.
pub open spec fn water_temperature(s: Seq<u8>, pos: int) -> Option<(Option<Temperature>, int)> {
    match after(s, pos, "W") {
        None => None,
        Some(p) => {
            let t = match after(s, p, "//") {
                Some(q) => Some((None, q)),
                None => match whole_number(s, p) {
                    Some((n, q)) => Some((Some(celsius(false, n)), q)),
                    None => None,
                },
            };
            match t {
                None => None,
                Some((v, q)) => match after(s, q, "/") {
                    Some(e) => Some((v, e)),
                    None => None,
                },
            }
        },
    }
}

/// `S` and the state of the sea: a digit, or a slash for none.
pub open spec fn sea_state(s: Seq<u8>, pos: int) -> Option<(Option<WaterSurfaceState>, int)> {
    match after(s, pos, "S") {
        None => None,
        Some(p) => if byte_is(s, p, SLASH) {
            Some((None, p + 1))
        } else if digit_at(s, p) {
            Some((Some(surface_state(s[p])), p + 1))
        } else {
            None
        },
    }
}

/// `H` and the wave height in decimeters: digits, or slashes for none.
pub open spec fn wave_height(s: Seq<u8>, pos: int) -> Option<(Option<Length>, int)> {
    match after(s, pos, "H") {
        None => None,
        Some(p) => if run_end(s, p, SLASH) > p {
            Some((None, run_end(s, p, SLASH)))
        } else {
            match whole_number(s, p) {
                Some((n, e)) => Some(
                    (Some(Length { value: Amount::Whole(n), unit: LengthUnit::Decimeter }), e),
                ),
                None => None,
            }
        },
    }
}

/// The water group: temperature, then the state of the sea or the wave
/// height.
#[verifier::opaque]
pub open spec fn water_conditions(s: Seq<u8>, pos: int) -> Option<(WaterConditions, int)> {
    match water_temperature(s, pos) {
        None => None,
        Some((temperature, p)) => match sea_state(s, p) {
            Some((state, e)) => Some(
                (
                    WaterConditions {
                        temperature,
                        surface_state: state,
                        significant_wave_height: None,
                    },
                    e,
                ),
            ),
            None => match wave_height(s, p) {
                Some((height, e)) => Some(
                    (
                        WaterConditions {
                            temperature,
                            surface_state: None,
                            significant_wave_height: height,
                        },
                        e,
                    ),
                ),
                None => None,
            },
        },
    }
}

/// Skips `METAR` or `SPECI` where one stands at `pos`.
pub fn skip_report_name(input: &[u8], pos: usize) -> (e: usize)
    requires
        pos <= input.len(),
    ensures
        e == report_name(input@, pos as int),
        pos <= e <= input.len(),
{
    match eat(input, pos, "METAR") {
        Some(p) => p,
        None => match eat(input, pos, "SPECI") {
            Some(p) => p,
            None => pos,
        },
    }
}

/// Reads a time of day at `pos`.
pub fn eat_zulu_time(input: &[u8], pos: usize) -> (r: Option<(ZuluTime, usize)>)
    requires
        pos <= input.len(),
    ensures
        agrees(r, zulu_time(input@, pos as int), pos, input.len()),
{
    if eat_two_digits(input, pos).is_some() && eat_two_digits(input, pos + 2).is_some() {
        Some(
            (
                ZuluTime {
                    hour: read_two_digits(input, pos),
                    minute: read_two_digits(input, pos + 2),
                },
                pos + 4,
            ),
        )
    } else {
        None
    }
}

/// Reads the time of the observation at `pos`.
pub fn parse_observation_time(input: &[u8], pos: usize) -> (r: Option<(ZuluDateTime, usize)>)
    requires
        pos <= input.len(),
    ensures
        agrees(r, observation_time(input@, pos as int), pos, input.len()),
{
    reveal(observation_time);
    match eat_two_digits(input, pos) {
        None => None,
        Some(p) => match eat_zulu_time(input, p) {
            None => None,
            Some((time, q)) => {
                let z = eat_maybe(input, q, "Z");
                Some(
                    (
                        ZuluDateTime {
                            day_of_month: read_two_digits(input, pos),
                            time,
                            is_zulu: z.0,
                        },
                        z.1,
                    ),
                )
            },
        },
    }
}

/// Reads two times of day with a slash between at `pos`.
pub fn eat_observation_validity_range(input: &[u8], pos: usize) -> (r: Option<
    (ZuluTimeRange, usize),
>)
    requires
        pos <= input.len(),
    ensures
        agrees(r, observation_validity_range(input@, pos as int), pos, input.len()),
{
    reveal(observation_validity_range);
    match eat_zulu_time(input, pos) {
        None => None,
        Some((begin, p)) => match eat(input, p, "/") {
            None => None,
            Some(q) => match eat_zulu_time(input, q) {
                Some((end, e)) => Some((ZuluTimeRange { begin, end }, e)),
                None => None,
            },
        },
    }
}

fn eat_observation_flag(input: &[u8], pos: usize) -> (r: Option<(ObservationFlag, usize)>)
    requires
        pos <= input.len(),
    ensures
        agrees(r, observation_flag(input@, pos as int), pos, input.len()),
{
    let r = eat_keyword(input, pos, "AUTO", ObservationFlag::Auto);
    if r.is_some() {
        return r;
    }
    let r = eat_keyword(input, pos, "NIL", ObservationFlag::Nil);
    if r.is_some() {
        return r;
    }
    let r = eat_keyword(input, pos, "COR", ObservationFlag::Cor);
    if r.is_some() {
        return r;
    }
    let r = eat_keyword(input, pos, "CCA", ObservationFlag::Cca);
    if r.is_some() {
        return r;
    }
    let r = eat_keyword(input, pos, "CCB", ObservationFlag::Ccb);
    if r.is_some() {
        return r;
    }
    let r = eat_keyword(input, pos, "CCC", ObservationFlag::Ccc);
    if r.is_some() {
        return r;
    }
    eat_keyword(input, pos, "RTD", ObservationFlag::Rtd)
}

fn add_flag(acc: ObservationFlags, f: ObservationFlag) -> (r: ObservationFlags)
    ensures
        r == with_flag(acc, f),
{
    let mut r = acc;
    match f {
        ObservationFlag::Auto => {
            r.auto = true;
        },
        ObservationFlag::Nil => {
            r.nil = true;
        },
        ObservationFlag::Cor => {
            r.cor = true;
        },
        ObservationFlag::Cca => {
            r.cca = true;
        },
        ObservationFlag::Ccb => {
            r.ccb = true;
        },
        ObservationFlag::Ccc => {
            r.ccc = true;
        },
        ObservationFlag::Rtd => {
            r.rtd = true;
        },
    }
    r
}

/// Reads zero or more observation flags at `pos` and adds them to `acc`.
pub fn eat_observation_flags(input: &[u8], pos: usize, acc: ObservationFlags) -> (r: (
    ObservationFlags,
    usize,
))
    requires
        pos <= input.len(),
    ensures
        follows(r, observation_flags(input@, pos as int, acc), pos, input.len()),
{
    reveal(observation_flags);
    match eat_observation_flag(input, pos) {
        None => (acc, pos),
        Some((first, start)) => {
            let mut flags = add_flag(acc, first);
            let mut cur: usize = start;
            loop
                invariant
                    pos <= start <= cur <= input.len(),
                    observation_flags(input@, pos as int, acc) == more_flags(
                        input@,
                        cur as int,
                        flags,
                    ),
                decreases input.len() - cur,
            {
                match eat_observation_flag(input, skip_whitespace(input, cur)) {
                    Some((f, p)) => {
                        if cur < p {
                            flags = add_flag(flags, f);
                            cur = p;
                        } else {
                            return (flags, cur);
                        }
                    },
                    None => {
                        return (flags, cur);
                    },
                }
            }
        },
    }
}

fn to_celsius(negative: bool, n: u64) -> (r: Temperature)
    ensures
        r == celsius(negative, n),
{
    let m: i64 = if n > 0x7fff_ffff_ffff_ffff {
        0x7fff_ffff_ffff_ffff
    } else {
        n as i64
    };
    Temperature {
        value: if negative {
            -m
        } else {
            m
        },
        unit: TemperatureUnit::DegreeCelsius,
    }
}

fn eat_temperature(input: &[u8], pos: usize) -> (r: Option<(Temperature, usize)>)
    requires
        pos <= input.len(),
    ensures
        agrees(r, temperature(input@, pos as int), pos, input.len()),
{
    let m = match eat(input, pos, "M") {
        Some(p) => (true, p),
        None => match eat(input, pos, "-") {
            Some(p) => (true, p),
            None => (false, pos),
        },
    };
    match eat_whole_number(input, m.1) {
        Some((n, e)) => Some((to_celsius(m.0, n), e)),
        None => None,
    }
}

fn unit_ahead(input: &[u8], pos: usize) -> (b: bool)
    requires
        pos <= input.len(),
    ensures
        b == !no_unit_ahead(input@, pos as int),
{
    eat_visibility_unit(input, pos).is_some() || eat_windspeed_unit(input, pos).is_some()
}

fn eat_air_temperature(input: &[u8], pos: usize) -> (r: Option<(Temperature, usize)>)
    requires
        pos <= input.len(),
    ensures
        agrees(r, air_temperature(input@, pos as int), pos, input.len()),
{
    match eat_temperature(input, pos) {
        None => None,
        Some((air, p)) => match eat(input, p, "/") {
            Some(q) => Some((air, q)),
            None => match eat(input, p, ".") {
                Some(q) => Some((air, q)),
                None => None,
            },
        },
    }
}

fn eat_air_alone(input: &[u8], pos: usize) -> (r: Option<(Option<Temperatures>, usize)>)
    requires
        pos <= input.len(),
    ensures
        agrees(r, air_alone(input@, pos as int), pos, input.len()),
{
    match eat_air_temperature(input, pos) {
        None => None,
        Some((air, p)) => {
            let x = eat(input, p, "XX");
            let mark = if x.is_some() {
                x
            } else {
                eat(input, p, "//")
            };
            match mark {
                Some(e) => if unit_ahead(input, e) {
                    None
                } else {
                    Some((Some(Temperatures { air, dewpoint: None }), e))
                },
                None => None,
            }
        },
    }
}

fn eat_air_and_dewpoint(input: &[u8], pos: usize) -> (r: Option<(Option<Temperatures>, usize)>)
    requires
        pos <= input.len(),
    ensures
        agrees(r, air_and_dewpoint(input@, pos as int), pos, input.len()),
{
    match eat_air_temperature(input, pos) {
        None => None,
        Some((air, p)) => {
            let d = match eat_temperature(input, p) {
                Some((t, e)) => (Some(t), e),
                None => (None, p),
            };
            if unit_ahead(input, d.1) {
                None
            } else {
                Some((Some(Temperatures { air, dewpoint: d.0 }), d.1))
            }
        },
    }
}

/// Reads a temperature group at `pos`: the temperatures it reports, or
/// none for `XX/XX`, and the position after the group.
pub fn parse_temperatures(input: &[u8], pos: usize) -> (r: Option<(Option<Temperatures>, usize)>)
    requires
        pos <= input.len(),
    ensures
        agrees(r, temperatures(input@, pos as int), pos, input.len()),
{
    reveal(temperatures);
    let r = eat_air_alone(input, pos);
    if r.is_some() {
        return r;
    }
    let r = eat_air_and_dewpoint(input, pos);
    if r.is_some() {
        return r;
    }
    eat_keyword(input, pos, "XX/XX", None)
}

fn eat_pressure_unit(input: &[u8], pos: usize) -> (r: Option<(PressureUnit, usize)>)
    requires
        pos <= input.len(),
    ensures
        agrees(r, pressure_unit(input@, pos as int), pos, input.len()),
{
    let r = eat_keyword(input, pos, "QFE", PressureUnit::Hectopascal);
    if r.is_some() {
        return r;
    }
    let r = eat_keyword(input, pos, "QNH", PressureUnit::Hectopascal);
    if r.is_some() {
        return r;
    }
    let r = eat_keyword(input, pos, "Q", PressureUnit::Hectopascal);
    if r.is_some() {
        return r;
    }
    eat_keyword(input, pos, "A", PressureUnit::HundredthInchOfMercury)
}

/// Reads a pressure group at `pos`: the pressure it reports, or none for
/// the forms that report nothing, and the position after the group.
pub fn parse_pressure(input: &[u8], pos: usize) -> (r: Option<(Option<Pressure>, usize)>)
    requires
        pos <= input.len(),
    ensures
        agrees(r, pressure(input@, pos as int), pos, input.len()),
{
    reveal(pressure);
    match eat_pressure_unit(input, pos) {
        None => None,
        Some((unit, p)) => {
            let q = skip_whitespace(input, p);
            match eat_decimal(input, q) {
                Some((value, e)) => Some((Some(Pressure { value, unit }), e)),
                None => match eat(input, q, "////") {
                    Some(e) => Some((None, e)),
                    None => match eat(input, q, "NIL") {
                        Some(e) => Some((None, e)),
                        None => None,
                    },
                },
            }
        },
    }
}

/// Skips zero or more further pressure groups at `pos`.
pub fn skip_extra_pressures(input: &[u8], pos: usize) -> (e: usize)
    requires
        pos <= input.len(),
    ensures
        e == extra_pressures(input@, pos as int),
        pos <= e <= input.len(),
{
    reveal(extra_pressures);
    match parse_pressure(input, pos) {
        None => pos,
        Some((_, start)) => {
            let mut cur: usize = start;
            loop
                invariant
                    pos <= start <= cur <= input.len(),
                    extra_pressures(input@, pos as int) == more_pressures(input@, cur as int),
                decreases input.len() - cur,
            {
                match parse_pressure(input, skip_whitespace(input, cur)) {
                    Some((_, p)) => {
                        if cur < p {
                            cur = p;
                        } else {
                            return cur;
                        }
                    },
                    None => {
                        return cur;
                    },
                }
            }
        },
    }
}

/// Reads a rainfall group at `pos`.
pub fn parse_accumulated_rainfall(input: &[u8], pos: usize) -> (r: Option<
    (AccumulatedRainfall, usize),
>)
    requires
        pos <= input.len(),
    ensures
        agrees(r, accumulated_rainfall(input@, pos as int), pos, input.len()),
{
    reveal(accumulated_rainfall);
    match eat(input, pos, "RF") {
        None => None,
        Some(p) => match eat_pointed_decimal(input, p) {
            None => None,
            Some((recent, q)) => match eat(input, q, "/") {
                None => None,
                Some(r) => match eat_pointed_decimal(input, r) {
                    Some((past, e)) => Some(
                        (
                            AccumulatedRainfall {
                                recent: Length { value: recent, unit: LengthUnit::Millimeter },
                                past: Length { value: past, unit: LengthUnit::Millimeter },
                            },
                            e,
                        ),
                    ),
                    None => None,
                },
            },
        },
    }
}

/// Reads the keyword of a colour state at `pos`.
pub fn eat_color_state(input: &[u8], pos: usize) -> (r: Option<(ColorState, usize)>)
    requires
        pos <= input.len(),
    ensures
        agrees(r, color_state(input@, pos as int), pos, input.len()),
{
    let r = eat_keyword(input, pos, "BLU+", ColorState::BluePlus);
    if r.is_some() {
        return r;
    }
    let r = eat_keyword(input, pos, "BLU", ColorState::Blue);
    if r.is_some() {
        return r;
    }
    let r = eat_keyword(input, pos, "WHT", ColorState::White);
    if r.is_some() {
        return r;
    }
    let r = eat_keyword(input, pos, "GRN", ColorState::Green);
    if r.is_some() {
        return r;
    }
    let r = eat_keyword(input, pos, "YLO1", ColorState::Yellow1);
    if r.is_some() {
        return r;
    }
    let r = eat_keyword(input, pos, "YLO2", ColorState::Yellow2);
    if r.is_some() {
        return r;
    }
    let r = eat_keyword(input, pos, "YLO", ColorState::Yellow);
    if r.is_some() {
        return r;
    }
    let r = eat_keyword(input, pos, "AMB", ColorState::Amber);
    if r.is_some() {
        return r;
    }
    eat_keyword(input, pos, "RED", ColorState::Red)
}

/// Reads a colour state group at `pos`.
pub fn parse_color(input: &[u8], pos: usize) -> (r: Option<(Color, usize)>)
    requires
        pos <= input.len(),
    ensures
        agrees(r, color(input@, pos as int), pos, input.len()),
{
    reveal(color);
    let b = eat_maybe(input, pos, "BLACK");
    match eat_color_state(input, skip_whitespace(input, b.1)) {
        None => None,
        Some((current_color, p)) => {
            match eat_color_state(input, skip_whitespace(input, p)) {
                Some((next, e)) => if boundary_here(input, e) {
                    return Some(
                        (Color { is_black: b.0, current_color, next_color: Some(next) }, e),
                    );
                },
                None => {},
            }
            if boundary_here(input, p) {
                Some((Color { is_black: b.0, current_color, next_color: None }, p))
            } else {
                None
            }
        },
    }
}

fn to_surface_state(c: u8) -> (r: WaterSurfaceState)
    ensures
        r == surface_state(c),
{
    if c == 48 {
        WaterSurfaceState::Glassy
    } else if c == 49 {
        WaterSurfaceState::Rippled
    } else if c == 50 {
        WaterSurfaceState::Smooth
    } else if c == 51 {
        WaterSurfaceState::Slight
    } else if c == 52 {
        WaterSurfaceState::Moderate
    } else if c == 53 {
        WaterSurfaceState::Rough
    } else if c == 54 {
        WaterSurfaceState::VeryRough
    } else if c == 55 {
        WaterSurfaceState::High
    } else if c == 56 {
        WaterSurfaceState::VeryHigh
    } else {
        WaterSurfaceState::Phenomenal
    }
}

fn eat_water_temperature(input: &[u8], pos: usize) -> (r: Option<(Option<Temperature>, usize)>)
    requires
        pos <= input.len(),
    ensures
        agrees(r, water_temperature(input@, pos as int), pos, input.len()),
{
    match eat(input, pos, "W") {
        None => None,
        Some(p) => {
            let t = match eat(input, p, "//") {
                Some(q) => Some((None, q)),
                None => match eat_whole_number(input, p) {
                    Some((n, q)) => Some((Some(to_celsius(false, n)), q)),
                    None => None,
                },
            };
            match t {
                None => None,
                Some((v, q)) => match eat(input, q, "/") {
                    Some(e) => Some((v, e)),
                    None => None,
                },
            }
        },
    }
}

fn eat_sea_state(input: &[u8], pos: usize) -> (r: Option<(Option<WaterSurfaceState>, usize)>)
    requires
        pos <= input.len(),
    ensures
        agrees(r, sea_state(input@, pos as int), pos, input.len()),
{
    match eat(input, pos, "S") {
        None => None,
        Some(p) => if peek(input, p, SLASH) {
            Some((None, p + 1))
        } else if digit_here(input, p) {
            Some((Some(to_surface_state(input[p])), p + 1))
        } else {
            None
        },
    }
}

fn eat_wave_height(input: &[u8], pos: usize) -> (r: Option<(Option<Length>, usize)>)
    requires
        pos <= input.len(),
    ensures
        agrees(r, wave_height(input@, pos as int), pos, input.len()),
{
    match eat(input, pos, "H") {
        None => None,
        Some(p) => {
            let e = skip_run(input, p, SLASH);
            if e > p {
                Some((None, e))
            } else {
                match eat_whole_number(input, p) {
                    Some((n, e)) => Some(
                        (
                            Some(Length { value: Amount::Whole(n), unit: LengthUnit::Decimeter }),
                            e,
                        ),
                    ),
                    None => None,
                }
            }
        },
    }
}

/// Reads a water group at `pos`.
pub fn parse_water_conditions(input: &[u8], pos: usize) -> (r: Option<(WaterConditions, usize)>)
    requires
        pos <= input.len(),
    ensures
        agrees(r, water_conditions(input@, pos as int), pos, input.len()),
{
    reveal(water_conditions);
    match eat_water_temperature(input, pos) {
        None => None,
        Some((temperature, p)) => match eat_sea_state(input, p) {
            Some((state, e)) => Some(
                (
                    WaterConditions {
                        temperature,
                        surface_state: state,
                        significant_wave_height: None,
                    },
                    e,
                ),
            ),
            None => match eat_wave_height(input, p) {
                Some((height, e)) => Some(
                    (
                        WaterConditions {
                            temperature,
                            surface_state: None,
                            significant_wave_height: height,
                        },
                        e,
                    ),
                ),
                None => None,
            },
        },
    }
}

} // verus!
