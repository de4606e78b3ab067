//! The wind group: direction, speed, gusts, unit and variance.

use crate::lexical::{
    after, agrees, decimal, eat, eat_decimal, eat_keyword, eat_three_digits, eat_two_digits,
    eat_whole_number, keyword, number, or, read_number, skip_whitespace, three_digits,
    two_digits, whitespace, whole_number,
};
use crate::tokens::{Amount, Angle, AngleUnit, Velocity, VelocityUnit, Wind};
use vstd::prelude::*;

verus! {

/// An angle of `n` degrees.
pub open spec fn degrees(n: u64) -> Angle {
    Angle { value: n, unit: AngleUnit::Degree }
}

/// The unit that a wind group closes with, and the velocity unit it means.
pub open spec fn windspeed_unit(s: Seq<u8>, pos: int) -> Option<(VelocityUnit, int)> {
    or(
        keyword(s, pos, "MPS", VelocityUnit::MeterPerSecond),
        or(
            keyword(s, pos, "KTM", VelocityUnit::Knot),
            or(
                keyword(s, pos, "KTS", VelocityUnit::Knot),
                or(
                    keyword(s, pos, "KT", VelocityUnit::Knot),
                    keyword(s, pos, "KMH", VelocityUnit::KilometerPerHour),
                ),
            ),
        ),
    )
}

/// The direction where one is given: none for `VRB`, else three digits.
pub open spec fn direction(s: Seq<u8>, pos: int) -> (Option<Angle>, int) {
    match after(s, pos, "VRB") {
        Some(p) => (None, p),
        None => match three_digits(s, pos) {
            Some(p) => (Some(degrees(number(s, pos, p))), p),
            None => (None, pos),
        },
    }
}

/// The speed where one is given: `P` and two digits, or a decimal number.
pub open spec fn speed(s: Seq<u8>, pos: int) -> (Option<Amount>, int) {
    match after(s, pos, "P") {
        Some(p) => match two_digits(s, p) {
            Some(e) => (Some(Amount::Whole(number(s, p, e))), e),
            None => (None, pos),
        },
        None => match decimal(s, pos) {
            Some((v, e)) => (Some(v), e),
            None => (None, pos),
        },
    }
}

/// The peak gust where one is given: `G` and digits, or `G//` for none.
pub open spec fn peak_gust(s: Seq<u8>, pos: int) -> (Option<Amount>, int) {
    match after(s, pos, "G") {
        None => (None, pos),
        Some(p) => match after(s, p, "//") {
            Some(e) => (None, e),
            None => match whole_number(s, p) {
                Some((n, e)) => (Some(Amount::Whole(n)), e),
                None => (None, pos),
            },
        },
    }
}

/// The variance where one is given: two directions with a `V` between.
pub open spec fn variance(s: Seq<u8>, pos: int) -> (Option<(Angle, Angle)>, int) {
    match whole_number(s, pos) {
        None => (None, pos),
        Some((a, p)) => match after(s, p, "V") {
            None => (None, pos),
            Some(q) => match whole_number(s, q) {
                None => (None, pos),
                Some((b, e)) => (Some((degrees(a), degrees(b))), e),
            },
        },
    }
}

/// A speed in the unit that the group closes with.
pub open spec fn velocity(v: Option<Amount>, unit: VelocityUnit) -> Option<Velocity> {
    match v {
        Some(value) => Some(Velocity { value, unit }),
        None => None,
    }
}

/// Five or six slashes and a unit: wind that was not reported.
pub open spec fn missing_wind(s: Seq<u8>, pos: int) -> Option<(Option<Wind>, int)> {
    match or(after(s, pos, "//////"), after(s, pos, "/////")) {
        None => None,
        Some(p) => match windspeed_unit(s, p) {
            Some((_, e)) => Some((None, e)),
            None => None,
        },
    }
}

/// The wind group. A reported wind takes its speeds in the unit of the
/// group; the all-slash forms yield no wind.
#[verifier::opaque]
pub open spec fn wind(s: Seq<u8>, pos: int) -> Option<(Option<Wind>, int)> {
    let d = direction(s, pos);
    let v = speed(s, d.1);
    let g = peak_gust(s, v.1);
    match windspeed_unit(s, g.1) {
        Some((unit, p)) => {
            let w = variance(s, whitespace(s, p));
            Some(
                (
                    Some(
                        Wind {
                            direction: d.0,
                            speed: velocity(v.0, unit),
                            peak_gust: velocity(g.0, unit),
                            variance: w.0,
                        },
                    ),
                    w.1,
                ),
            )
        },
        None => missing_wind(s, pos),
    }
}

/// Reads the unit of a wind group at `pos`.
pub fn eat_windspeed_unit(input: &[u8], pos: usize) -> (r: Option<(VelocityUnit, usize)>)
    requires
        pos <= input.len(),
    ensures
        agrees(r, windspeed_unit(input@, pos as int), pos, input.len()),
{
    let r = eat_keyword(input, pos, "MPS", VelocityUnit::MeterPerSecond);
    if r.is_some() {
        return r;
    }
    let r = eat_keyword(input, pos, "KTM", VelocityUnit::Knot);
    if r.is_some() {
        return r;
    }
    let r = eat_keyword(input, pos, "KTS", VelocityUnit::Knot);
    if r.is_some() {
        return r;
    }
    let r = eat_keyword(input, pos, "KT", VelocityUnit::Knot);
    if r.is_some() {
        return r;
    }
    eat_keyword(input, pos, "KMH", VelocityUnit::KilometerPerHour)
}

fn eat_direction(input: &[u8], pos: usize) -> (r: (Option<Angle>, usize))
    requires
        pos <= input.len(),
    ensures
        r.0 == direction(input@, pos as int).0,
        r.1 == direction(input@, pos as int).1,
        pos <= r.1 <= input.len(),
{
    match eat(input, pos, "VRB") {
        Some(p) => (None, p),
        None => match eat_three_digits(input, pos) {
            Some(p) => (
                Some(Angle { value: read_number(input, pos, p), unit: AngleUnit::Degree }),
                p,
            ),
            None => (None, pos),
        },
    }
}

fn eat_speed(input: &[u8], pos: usize) -> (r: (Option<Amount>, usize))
    requires
        pos <= input.len(),
    ensures
        r.0 == speed(input@, pos as int).0,
        r.1 == speed(input@, pos as int).1,
        pos <= r.1 <= input.len(),
{
    match eat(input, pos, "P") {
        Some(p) => match eat_two_digits(input, p) {
            Some(e) => (Some(Amount::Whole(read_number(input, p, e))), e),
            None => (None, pos),
        },
        None => match eat_decimal(input, pos) {
            Some((v, e)) => (Some(v), e),
            None => (None, pos),
        },
    }
}

fn eat_peak_gust(input: &[u8], pos: usize) -> (r: (Option<Amount>, usize))
    requires
        pos <= input.len(),
    ensures
        r.0 == peak_gust(input@, pos as int).0,
        r.1 == peak_gust(input@, pos as int).1,
        pos <= r.1 <= input.len(),
{
    match eat(input, pos, "G") {
        None => (None, pos),
        Some(p) => match eat(input, p, "//") {
            Some(e) => (None, e),
            None => match eat_whole_number(input, p) {
                Some((n, e)) => (Some(Amount::Whole(n)), e),
                None => (None, pos),
            },
        },
    }
}

fn eat_variance(input: &[u8], pos: usize) -> (r: (Option<(Angle, Angle)>, usize))
    requires
        pos <= input.len(),
    ensures
        r.0 == variance(input@, pos as int).0,
        r.1 == variance(input@, pos as int).1,
        pos <= r.1 <= input.len(),
{
    match eat_whole_number(input, pos) {
        None => (None, pos),
        Some((a, p)) => match eat(input, p, "V") {
            None => (None, pos),
            Some(q) => match eat_whole_number(input, q) {
                None => (None, pos),
                Some((b, e)) => (
                    Some(
                        (
                            Angle { value: a, unit: AngleUnit::Degree },
                            Angle { value: b, unit: AngleUnit::Degree },
                        ),
                    ),
                    e,
                ),
            },
        },
    }
}

fn to_velocity(v: Option<Amount>, unit: VelocityUnit) -> (r: Option<Velocity>)
    ensures
        r == velocity(v, unit),
{
    match v {
        Some(value) => Some(Velocity { value, unit }),
        None => None,
    }
}

fn eat_missing_wind(input: &[u8], pos: usize) -> (r: Option<(Option<Wind>, usize)>)
    requires
        pos <= input.len(),
    ensures
        agrees(r, missing_wind(input@, pos as int), pos, input.len()),
{
    let six = eat(input, pos, "//////");
    let slashes = if six.is_some() {
        six
    } else {
        eat(input, pos, "/////")
    };
    match slashes {
        None => None,
        Some(p) => match eat_windspeed_unit(input, p) {
            Some((_, e)) => Some((None, e)),
            None => None,
        },
    }
}

/// Reads a wind group at `pos`: the wind it reports, or none for the
/// all-slash forms, and the position after the group.
pub fn parse_wind(input: &[u8], pos: usize) -> (r: Option<(Option<Wind>, usize)>)
    requires
        pos <= input.len(),
    ensures
        agrees(r, wind(input@, pos as int), pos, input.len()),
{
    reveal(wind);
    let d = eat_direction(input, pos);
    let v = eat_speed(input, d.1);
    let g = eat_peak_gust(input, v.1);
    match eat_windspeed_unit(input, g.1) {
        Some((unit, p)) => {
            let w = eat_variance(input, skip_whitespace(input, p));
            Some(
                (
                    Some(
                        Wind {
                            direction: d.0,
                            speed: to_velocity(v.0, unit),
                            peak_gust: to_velocity(g.0, unit),
                            variance: w.0,
                        },
                    ),
                    w.1,
                ),
            )
        },
        None => eat_missing_wind(input, pos),
    }
}

} // verus!
