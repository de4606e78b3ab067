//! The visibility group: prevailing and directional visibility.

use crate::lexical::{
    after, agrees, at_boundary, boundary_here, digits_end, eat, eat_keyword, eat_whole_number,
    follows, keyword, or, skip_digits, skip_whitespace, whitespace, whole_number,
};
use crate::tokens::{
    Amount, CompassDirection, DirectionalVisibility, Length, LengthUnit, OutOfRange,
    RawVisibility, Visibility,
};
use vstd::prelude::*;

verus! {

/// A visibility unit, after whitespace where there is any, and only where
/// the token ends behind it: `M`, `KM` or `SM`.
pub open spec fn visibility_unit(s: Seq<u8>, pos: int) -> Option<(LengthUnit, int)> {
    let p = whitespace(s, pos);
    match or(
        keyword(s, p, "M", LengthUnit::Meter),
        or(
            keyword(s, p, "KM", LengthUnit::Kilometer),
            keyword(s, p, "SM", LengthUnit::StatuteMile),
        ),
    ) {
        Some((unit, e)) => if at_boundary(s, e) {
            Some((unit, e))
        } else {
            None
        },
        None => None,
    }
}

/// The unit of a distance: the one written, or meters where none is.
pub open spec fn unit_or_meter(s: Seq<u8>, pos: int) -> (LengthUnit, int) {
    match visibility_unit(s, pos) {
        Some((unit, e)) => (unit, e),
        None => (LengthUnit::Meter, pos),
    }
}

/// The position after a visibility unit where one stands at `pos`.
pub open spec fn skip_unit(s: Seq<u8>, pos: int) -> int {
    unit_or_meter(s, pos).1
}

/// `M` for below what can be measured, `P` for above it.
pub open spec fn out_of_range(s: Seq<u8>, pos: int) -> (Option<OutOfRange>, int) {
    match or(keyword(s, pos, "M", OutOfRange::Below), keyword(s, pos, "P", OutOfRange::Above)) {
        Some((o, p)) => (Some(o), p),
        None => (None, pos),
    }
}

/// A distance with its marks.
pub open spec fn raw(value: Amount, unit: LengthUnit, o: Option<OutOfRange>) -> RawVisibility {
    RawVisibility { distance: Length { value, unit }, out_of_range: o }
}

/// A whole number, whitespace, and a fraction: their sum.
pub open spec fn mixed_distance(s: Seq<u8>, pos: int, o: Option<OutOfRange>) -> Option<
    (RawVisibility, int),
> {
    match whole_number(s, pos) {
        None => None,
        Some((whole, p)) => match fraction_distance(s, whitespace(s, p), o) {
            Some((f, e)) => match f.distance.value {
                Amount::Mixed { whole: _, numerator, denominator } => Some(
                    (raw(Amount::Mixed { whole, numerator, denominator }, f.distance.unit, o), e),
                ),
                _ => None,
            },
            None => None,
        },
    }
}

/// A fraction alone.
pub open spec fn fraction_distance(s: Seq<u8>, pos: int, o: Option<OutOfRange>) -> Option<
    (RawVisibility, int),
> {
    match whole_number(s, pos) {
        None => None,
        Some((numerator, p)) => match after(s, p, "/") {
            None => None,
            Some(q) => match whole_number(s, q) {
                None => None,
                Some((denominator, e)) => {
                    let u = unit_or_meter(s, e);
                    Some((raw(Amount::Mixed { whole: 0, numerator, denominator }, u.0, o), u.1))
                },
            },
        },
    }
}

/// A whole number alone.
pub open spec fn whole_distance(s: Seq<u8>, pos: int, o: Option<OutOfRange>) -> Option<
    (RawVisibility, int),
> {
    match whole_number(s, pos) {
        None => None,
        Some((n, e)) => {
            let u = unit_or_meter(s, e);
            Some((raw(Amount::Whole(n), u.0, o), u.1))
        },
    }
}

/// One distance: an out-of-range mark where there is one, then the richest
/// of a whole number with a fraction, a fraction, and a whole number, in the
/// unit written behind it, or in meters.
pub open spec fn raw_visibility(s: Seq<u8>, pos: int) -> Option<(RawVisibility, int)> {
    let o = out_of_range(s, pos);
    or(
        mixed_distance(s, o.1, o.0),
        or(fraction_distance(s, o.1, o.0), whole_distance(s, o.1, o.0)),
    )
}

/// One of the eight compass points.
pub open spec fn compass_direction(s: Seq<u8>, pos: int) -> Option<(CompassDirection, int)> {
    or(
        keyword(s, pos, "NE", CompassDirection::NorthEast),
        or(
            keyword(s, pos, "NW", CompassDirection::NorthWest),
            or(
                keyword(s, pos, "N", CompassDirection::North),
                or(
                    keyword(s, pos, "SE", CompassDirection::SouthEast),
                    or(
                        keyword(s, pos, "SW", CompassDirection::SouthWest),
                        or(
                            keyword(s, pos, "S", CompassDirection::South),
                            or(
                                keyword(s, pos, "E", CompassDirection::East),
                                keyword(s, pos, "W", CompassDirection::West),
                            ),
                        ),
                    ),
                ),
            ),
        ),
    )
}

/// A distance and the compass point it was seen towards.
pub open spec fn directional_visibility(s: Seq<u8>, pos: int) -> Option<
    (DirectionalVisibility, int),
> {
    match raw_visibility(s, pos) {
        None => None,
        Some((distance, p)) => match compass_direction(s, p) {
            Some((direction, e)) => Some((DirectionalVisibility { direction, distance }, e)),
            None => None,
        },
    }
}

/// Digits where there are any, `NDV`, and a unit where there is one: no
/// visibility is reported.
pub open spec fn no_variation(s: Seq<u8>, pos: int) -> Option<(Option<Visibility>, int)> {
    match after(s, digits_end(s, pos), "NDV") {
        Some(p) => Some((None, skip_unit(s, p))),
        None => None,
    }
}

/// Four slashes, then a unit, or `NDV` and a unit where there is one, or
/// nothing: no visibility is reported.
pub open spec fn missing_visibility(s: Seq<u8>, pos: int) -> Option<(Option<Visibility>, int)> {
    match after(s, pos, "////") {
        None => None,
        Some(p) => match visibility_unit(s, p) {
            Some((_, e)) => Some((None, e)),
            None => match after(s, p, "NDV") {
                Some(q) => Some((None, skip_unit(s, q))),
                None => Some((None, p)),
            },
        },
    }
}

/// Prevailing visibility, then one directional visibility or two.
pub open spec fn prevailing_and_directional(s: Seq<u8>, pos: int) -> Option<
    (Option<Visibility>, int),
> {
    match raw_visibility(s, pos) {
        None => None,
        Some((prevailing, p)) => match directional_visibility(s, whitespace(s, p)) {
            None => None,
            Some((least, q)) => match directional_visibility(s, whitespace(s, q)) {
                Some((most, e)) => Some(
                    (
                        Some(
                            Visibility {
                                prevailing: Some(prevailing),
                                minimum_directional: Some(least),
                                maximum_directional: Some(most),
                            },
                        ),
                        e,
                    ),
                ),
                None => Some(
                    (
                        Some(
                            Visibility {
                                prevailing: Some(prevailing),
                                minimum_directional: Some(least),
                                maximum_directional: None,
                            },
                        ),
                        q,
                    ),
                ),
            },
        },
    }
}

/// One directional visibility or two, without a prevailing one.
pub open spec fn directional_only(s: Seq<u8>, pos: int) -> Option<(Option<Visibility>, int)> {
    match directional_visibility(s, pos) {
        None => None,
        Some((least, q)) => match directional_visibility(s, whitespace(s, q)) {
            Some((most, e)) => Some(
                (
                    Some(
                        Visibility {
                            prevailing: None,
                            minimum_directional: Some(least),
                            maximum_directional: Some(most),
                        },
                    ),
                    e,
                ),
            ),
            None => Some(
                (
                    Some(
                        Visibility {
                            prevailing: None,
                            minimum_directional: Some(least),
                            maximum_directional: None,
                        },
                    ),
                    q,
                ),
            ),
        },
    }
}

/// Prevailing visibility alone.
pub open spec fn prevailing_only(s: Seq<u8>, pos: int) -> Option<(Option<Visibility>, int)> {
    match raw_visibility(s, pos) {
        None => None,
        Some((prevailing, e)) => Some(
            (
                Some(
                    Visibility {
                        prevailing: Some(prevailing),
                        minimum_directional: None,
                        maximum_directional: None,
                    },
                ),
                e,
            ),
        ),
    }
}

/// The visibility group. The forms that report nothing come first; then the
/// richest form that matches wins: prevailing with directional visibility,
/// directional visibility alone, prevailing visibility alone.
#[verifier::opaque]
pub open spec fn visibility(s: Seq<u8>, pos: int) -> Option<(Option<Visibility>, int)> {
    or(
        no_variation(s, pos),
        or(
            missing_visibility(s, pos),
            or(
                prevailing_and_directional(s, pos),
                or(directional_only(s, pos), prevailing_only(s, pos)),
            ),
        ),
    )
}

/// Reads a visibility unit at `pos`.
pub fn eat_visibility_unit(input: &[u8], pos: usize) -> (r: Option<(LengthUnit, usize)>)
    requires
        pos <= input.len(),
    ensures
        agrees(r, visibility_unit(input@, pos as int), pos, input.len()),
{
    let p = skip_whitespace(input, pos);
    let m = eat_keyword(input, p, "M", LengthUnit::Meter);
    let r = if m.is_some() {
        m
    } else {
        let k = eat_keyword(input, p, "KM", LengthUnit::Kilometer);
        if k.is_some() {
            k
        } else {
            eat_keyword(input, p, "SM", LengthUnit::StatuteMile)
        }
    };
    match r {
        Some((unit, e)) => if boundary_here(input, e) {
            Some((unit, e))
        } else {
            None
        },
        None => None,
    }
}

fn eat_unit_or_meter(input: &[u8], pos: usize) -> (r: (LengthUnit, usize))
    requires
        pos <= input.len(),
    ensures
        follows(r, unit_or_meter(input@, pos as int), pos, input.len()),
{
    match eat_visibility_unit(input, pos) {
        Some((unit, e)) => (unit, e),
        None => (LengthUnit::Meter, pos),
    }
}

/// Reads an out-of-range mark where one stands at `pos`.
pub fn eat_out_of_range(input: &[u8], pos: usize) -> (r: (Option<OutOfRange>, usize))
    requires
        pos <= input.len(),
    ensures
        follows(r, out_of_range(input@, pos as int), pos, input.len()),
{
    let m = eat_keyword(input, pos, "M", OutOfRange::Below);
    let r = if m.is_some() {
        m
    } else {
        eat_keyword(input, pos, "P", OutOfRange::Above)
    };
    match r {
        Some((o, p)) => (Some(o), p),
        None => (None, pos),
    }
}

fn eat_fraction_distance(input: &[u8], pos: usize, o: Option<OutOfRange>) -> (r: Option<
    (RawVisibility, usize),
>)
    requires
        pos <= input.len(),
    ensures
        agrees(r, fraction_distance(input@, pos as int, o), pos, input.len()),
{
    match eat_whole_number(input, pos) {
        None => None,
        Some((numerator, p)) => match eat(input, p, "/") {
            None => None,
            Some(q) => match eat_whole_number(input, q) {
                None => None,
                Some((denominator, e)) => {
                    let u = eat_unit_or_meter(input, e);
                    Some(
                        (
                            RawVisibility {
                                distance: Length {
                                    value: Amount::Mixed { whole: 0, numerator, denominator },
                                    unit: u.0,
                                },
                                out_of_range: o,
                            },
                            u.1,
                        ),
                    )
                },
            },
        },
    }
}

fn eat_mixed_distance(input: &[u8], pos: usize, o: Option<OutOfRange>) -> (r: Option<
    (RawVisibility, usize),
>)
    requires
        pos <= input.len(),
    ensures
        agrees(r, mixed_distance(input@, pos as int, o), pos, input.len()),
{
    match eat_whole_number(input, pos) {
        None => None,
        Some((whole, p)) => match eat_fraction_distance(input, skip_whitespace(input, p), o) {
            Some((f, e)) => match f.distance.value {
                Amount::Mixed { whole: _, numerator, denominator } => Some(
                    (
                        RawVisibility {
                            distance: Length {
                                value: Amount::Mixed { whole, numerator, denominator },
                                unit: f.distance.unit,
                            },
                            out_of_range: o,
                        },
                        e,
                    ),
                ),
                _ => None,
            },
            None => None,
        },
    }
}

fn eat_whole_distance(input: &[u8], pos: usize, o: Option<OutOfRange>) -> (r: Option<
    (RawVisibility, usize),
>)
    requires
        pos <= input.len(),
    ensures
        agrees(r, whole_distance(input@, pos as int, o), pos, input.len()),
{
    match eat_whole_number(input, pos) {
        None => None,
        Some((n, e)) => {
            let u = eat_unit_or_meter(input, e);
            Some(
                (
                    RawVisibility {
                        distance: Length { value: Amount::Whole(n), unit: u.0 },
                        out_of_range: o,
                    },
                    u.1,
                ),
            )
        },
    }
}

/// Reads one distance at `pos`.
pub fn parse_raw_visibility(input: &[u8], pos: usize) -> (r: Option<(RawVisibility, usize)>)
    requires
        pos <= input.len(),
    ensures
        agrees(r, raw_visibility(input@, pos as int), pos, input.len()),
{
    let o = eat_out_of_range(input, pos);
    let r = eat_mixed_distance(input, o.1, o.0);
    if r.is_some() {
        return r;
    }
    let r = eat_fraction_distance(input, o.1, o.0);
    if r.is_some() {
        return r;
    }
    eat_whole_distance(input, o.1, o.0)
}

/// Reads one of the eight compass points at `pos`.
pub fn eat_compass_direction(input: &[u8], pos: usize) -> (r: Option<(CompassDirection, usize)>)
    requires
        pos <= input.len(),
    ensures
        agrees(r, compass_direction(input@, pos as int), pos, input.len()),
{
    let r = eat_keyword(input, pos, "NE", CompassDirection::NorthEast);
    if r.is_some() {
        return r;
    }
    let r = eat_keyword(input, pos, "NW", CompassDirection::NorthWest);
    if r.is_some() {
        return r;
    }
    let r = eat_keyword(input, pos, "N", CompassDirection::North);
    if r.is_some() {
        return r;
    }
    let r = eat_keyword(input, pos, "SE", CompassDirection::SouthEast);
    if r.is_some() {
        return r;
    }
    let r = eat_keyword(input, pos, "SW", CompassDirection::SouthWest);
    if r.is_some() {
        return r;
    }
    let r = eat_keyword(input, pos, "S", CompassDirection::South);
    if r.is_some() {
        return r;
    }
    let r = eat_keyword(input, pos, "E", CompassDirection::East);
    if r.is_some() {
        return r;
    }
    eat_keyword(input, pos, "W", CompassDirection::West)
}

fn eat_directional_visibility(input: &[u8], pos: usize) -> (r: Option<
    (DirectionalVisibility, usize),
>)
    requires
        pos <= input.len(),
    ensures
        agrees(r, directional_visibility(input@, pos as int), pos, input.len()),
{
    match parse_raw_visibility(input, pos) {
        None => None,
        Some((distance, p)) => match eat_compass_direction(input, p) {
            Some((direction, e)) => Some((DirectionalVisibility { direction, distance }, e)),
            None => None,
        },
    }
}

fn eat_no_variation(input: &[u8], pos: usize) -> (r: Option<(Option<Visibility>, usize)>)
    requires
        pos <= input.len(),
    ensures
        agrees(r, no_variation(input@, pos as int), pos, input.len()),
{
    match eat(input, skip_digits(input, pos), "NDV") {
        Some(p) => Some((None, eat_unit_or_meter(input, p).1)),
        None => None,
    }
}

fn eat_missing_visibility(input: &[u8], pos: usize) -> (r: Option<(Option<Visibility>, usize)>)
    requires
        pos <= input.len(),
    ensures
        agrees(r, missing_visibility(input@, pos as int), pos, input.len()),
{
    match eat(input, pos, "////") {
        None => None,
        Some(p) => match eat_visibility_unit(input, p) {
            Some((_, e)) => Some((None, e)),
            None => match eat(input, p, "NDV") {
                Some(q) => Some((None, eat_unit_or_meter(input, q).1)),
                None => Some((None, p)),
            },
        },
    }
}

fn eat_prevailing_and_directional(input: &[u8], pos: usize) -> (r: Option<
    (Option<Visibility>, usize),
>)
    requires
        pos <= input.len(),
    ensures
        agrees(r, prevailing_and_directional(input@, pos as int), pos, input.len()),
{
    match parse_raw_visibility(input, pos) {
        None => None,
        Some((prevailing, p)) => match eat_directional_visibility(
            input,
            skip_whitespace(input, p),
        ) {
            None => None,
            Some((least, q)) => match eat_directional_visibility(
                input,
                skip_whitespace(input, q),
            ) {
                Some((most, e)) => Some(
                    (
                        Some(
                            Visibility {
                                prevailing: Some(prevailing),
                                minimum_directional: Some(least),
                                maximum_directional: Some(most),
                            },
                        ),
                        e,
                    ),
                ),
                None => Some(
                    (
                        Some(
                            Visibility {
                                prevailing: Some(prevailing),
                                minimum_directional: Some(least),
                                maximum_directional: None,
                            },
                        ),
                        q,
                    ),
                ),
            },
        },
    }
}

fn eat_directional_only(input: &[u8], pos: usize) -> (r: Option<(Option<Visibility>, usize)>)
    requires
        pos <= input.len(),
    ensures
        agrees(r, directional_only(input@, pos as int), pos, input.len()),
{
    match eat_directional_visibility(input, pos) {
        None => None,
        Some((least, q)) => match eat_directional_visibility(input, skip_whitespace(input, q)) {
            Some((most, e)) => Some(
                (
                    Some(
                        Visibility {
                            prevailing: None,
                            minimum_directional: Some(least),
                            maximum_directional: Some(most),
                        },
                    ),
                    e,
                ),
            ),
            None => Some(
                (
                    Some(
                        Visibility {
                            prevailing: None,
                            minimum_directional: Some(least),
                            maximum_directional: None,
                        },
                    ),
                    q,
                ),
            ),
        },
    }
}

fn eat_prevailing_only(input: &[u8], pos: usize) -> (r: Option<(Option<Visibility>, usize)>)
    requires
        pos <= input.len(),
    ensures
        agrees(r, prevailing_only(input@, pos as int), pos, input.len()),
{
    match parse_raw_visibility(input, pos) {
        None => None,
        Some((prevailing, e)) => Some(
            (
                Some(
                    Visibility {
                        prevailing: Some(prevailing),
                        minimum_directional: None,
                        maximum_directional: None,
                    },
                ),
                e,
            ),
        ),
    }
}

/// Reads a visibility group at `pos`: the visibility it reports, or none
/// for the forms that report nothing, and the position after the group.
pub fn parse_visibility(input: &[u8], pos: usize) -> (r: Option<(Option<Visibility>, usize)>)
    requires
        pos <= input.len(),
    ensures
        agrees(r, visibility(input@, pos as int), pos, input.len()),
{
    reveal(visibility);
    let r = eat_no_variation(input, pos);
    if r.is_some() {
        return r;
    }
    let r = eat_missing_visibility(input, pos);
    if r.is_some() {
        return r;
    }
    let r = eat_prevailing_and_directional(input, pos);
    if r.is_some() {
        return r;
    }
    let r = eat_directional_only(input, pos);
    if r.is_some() {
        return r;
    }
    eat_prevailing_only(input, pos)
}

} // verus!
