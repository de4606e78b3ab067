//! Runway groups: runway visual range and runway state.

use crate::lexical::{
    after, agrees, at_boundary, boundary_here, digits, eat, eat_digits, eat_keyword,
    eat_maybe, eat_whole_number, follows, keyword, maybe, or, run_end, skip_run, skip_whitespace,
    span, whitespace, whole_number, Span, SLASH,
};
use crate::metar::visibility::{eat_out_of_range, out_of_range, raw};
use crate::tokens::{
    Amount, Length, LengthUnit, OutOfRange, RawVisibility, RunwayReport, RunwayReportInfo,
    RunwayVisibility, VisibilityTrend, VisibilityType,
};
use vstd::prelude::*;

verus! {

/// The side letter that may close a runway designator.
pub open spec fn side(s: Seq<u8>, pos: int) -> int {
    match or(
        after(s, pos, "L"),
        or(after(s, pos, "C"), or(after(s, pos, "R"), after(s, pos, "D"))),
    ) {
        Some(p) => p,
        None => pos,
    }
}

/// A runway designator: digits, and a side letter where there is one.
pub open spec fn designator(s: Seq<u8>, pos: int) -> Option<(Span, int)> {
    match digits(s, pos) {
        Some(p) => Some((span(pos, side(s, p)), side(s, p))),
        None => None,
    }
}

/// `CLRD` and a friction coefficient, or `//` where none is given.
pub open spec fn runway_report_info(s: Seq<u8>, pos: int) -> Option<(RunwayReportInfo, int)> {
    match after(s, pos, "CLRD") {
        None => None,
        Some(p) => match after(s, p, "//") {
            Some(e) => Some((RunwayReportInfo::Cleared { friction: None }, e)),
            None => match whole_number(s, p) {
                Some((n, e)) => Some((RunwayReportInfo::Cleared { friction: Some(n) }, e)),
                None => None,
            },
        },
    }
}

/// `R`, a designator and a slash, with no runway state behind them.
pub open spec fn runway_prefix(s: Seq<u8>, pos: int) -> Option<(Span, int)> {
    match after(s, pos, "R") {
        None => None,
        Some(p) => match designator(s, p) {
            None => None,
            Some((d, q)) => match after(s, q, "/") {
                None => None,
                Some(e) => if runway_report_info(s, e) is Some {
                    None
                } else {
                    Some((d, e))
                },
            },
        },
    }
}

/// The unit of a runway distance: feet where `FT` is written, else meters.
pub open spec fn feet_or_meters(s: Seq<u8>, pos: int) -> (LengthUnit, int) {
    match after(s, pos, "FT") {
        Some(e) => (LengthUnit::Foot, e),
        None => (LengthUnit::Meter, pos),
    }
}

/// Two distances with a `V` between, each with its own out-of-range mark,
/// both in the unit that closes the pair.
pub open spec fn raw_runway_visibility_range(s: Seq<u8>, pos: int) -> Option<
    ((RawVisibility, RawVisibility), int),
> {
    let lo = out_of_range(s, pos);
    match whole_number(s, lo.1) {
        None => None,
        Some((lower, p)) => match after(s, p, "V") {
            None => None,
            Some(q) => {
                let uo = out_of_range(s, q);
                match whole_number(s, uo.1) {
                    None => None,
                    Some((upper, e)) => {
                        let u = feet_or_meters(s, e);
                        Some(
                            (
                                (
                                    raw(Amount::Whole(lower), u.0, lo.0),
                                    raw(Amount::Whole(upper), u.0, uo.0),
                                ),
                                u.1,
                            ),
                        )
                    },
                }
            },
        },
    }
}

/// One runway distance, in feet where `FT` follows, else in meters.
pub open spec fn raw_runway_visibility(s: Seq<u8>, pos: int) -> Option<(RawVisibility, int)> {
    let o = out_of_range(s, pos);
    match whole_number(s, o.1) {
        None => None,
        Some((n, e)) => {
            let u = feet_or_meters(s, e);
            Some((raw(Amount::Whole(n), u.0, o.0), u.1))
        },
    }
}

/// The trend of a runway visibility, where one is given: `D`, `N` or `U`,
/// behind a slash or without one.
pub open spec fn visibility_trend(s: Seq<u8>, pos: int) -> (Option<VisibilityTrend>, int) {
    let p = maybe(s, pos, "/").1;
    match or(
        keyword(s, p, "D", VisibilityTrend::Down),
        or(keyword(s, p, "N", VisibilityTrend::NoChange), keyword(s, p, "U", VisibilityTrend::Up)),
    ) {
        Some((t, e)) => (Some(t), e),
        None => (None, pos),
    }
}

/// A runway visibility that varies between two distances.
pub open spec fn varying_runway_visibility(s: Seq<u8>, pos: int) -> Option<
    (Option<RunwayVisibility>, int),
> {
    match runway_prefix(s, pos) {
        None => None,
        Some((d, p)) => match raw_runway_visibility_range(s, p) {
            None => None,
            Some((range, q)) => {
                let t = visibility_trend(s, q);
                Some(
                    (
                        Some(
                            RunwayVisibility {
                                designator: d,
                                visibility: VisibilityType::Varying {
                                    lower: range.0,
                                    upper: range.1,
                                },
                                trend: t.0,
                            },
                        ),
                        maybe(s, t.1, "/").1,
                    ),
                )
            },
        },
    }
}

/// A runway visibility of one distance.
pub open spec fn fixed_runway_visibility(s: Seq<u8>, pos: int) -> Option<
    (Option<RunwayVisibility>, int),
> {
    match runway_prefix(s, pos) {
        None => None,
        Some((d, p)) => match raw_runway_visibility(s, p) {
            None => None,
            Some((v, q)) => {
                let t = visibility_trend(s, q);
                Some(
                    (
                        Some(
                            RunwayVisibility {
                                designator: d,
                                visibility: VisibilityType::Fixed(v),
                                trend: t.0,
                            },
                        ),
                        maybe(s, t.1, "/").1,
                    ),
                )
            },
        },
    }
}

/// `R`, a designator where there is one, and five slashes or more up to the
/// end of the token: nothing is reported.
pub open spec fn missing_runway_visibility(s: Seq<u8>, pos: int) -> Option<
    (Option<RunwayVisibility>, int),
> {
    match after(s, pos, "R") {
        None => None,
        Some(p) => {
            let q = match designator(s, p) {
                Some((_, q)) => q,
                None => p,
            };
            match after(s, q, "/////") {
                None => None,
                Some(r) => if at_boundary(s, run_end(s, r, SLASH)) {
                    Some((None, run_end(s, r, SLASH)))
                } else {
                    None
                },
            }
        },
    }
}

/// The runway visibility group: a varying visibility, else a fixed one,
/// else the all-slash form that reports nothing.
#[verifier::opaque]
pub open spec fn runway_visibility(s: Seq<u8>, pos: int) -> Option<
    (Option<RunwayVisibility>, int),
> {
    or(
        varying_runway_visibility(s, pos),
        or(fixed_runway_visibility(s, pos), missing_runway_visibility(s, pos)),
    )
}

/// The runway state group: `R`, a designator, a slash and the state.
#[verifier::opaque]
pub open spec fn runway_report(s: Seq<u8>, pos: int) -> Option<(RunwayReport, int)> {
    match after(s, pos, "R") {
        None => None,
        Some(p) => match designator(s, p) {
            None => None,
            Some((d, q)) => match after(s, q, "/") {
                None => None,
                Some(r) => match runway_report_info(s, r) {
                    Some((info, e)) => Some((RunwayReport { designator: d, report_info: info }, e)),
                    None => None,
                },
            },
        },
    }
}

/// `acc` with `v` behind it where there is one.
pub open spec fn with_visibility(acc: Seq<RunwayVisibility>, v: Option<RunwayVisibility>) -> Seq<
    RunwayVisibility,
> {
    match v {
        Some(v) => acc.push(v),
        None => acc,
    }
}

/// The runway visibility groups that follow the one that ended at `pos`,
/// each behind whitespace where there is any, added to `acc` in the order in
/// which they stand.
pub open spec fn more_runway_visibilities(s: Seq<u8>, pos: int, acc: Seq<RunwayVisibility>) -> (
    Seq<RunwayVisibility>,
    int,
)
    decreases s.len() - pos,
{
    match runway_visibility(s, whitespace(s, pos)) {
        Some((v, p)) => if pos < p <= s.len() {
            more_runway_visibilities(s, p, with_visibility(acc, v))
        } else {
            (acc, pos)
        },
        None => (acc, pos),
    }
}

/// Zero or more runway visibility groups: what they report, in the order
/// in which they stand, added to `acc`.
#[verifier::opaque]
pub open spec fn runway_visibilities(s: Seq<u8>, pos: int, acc: Seq<RunwayVisibility>) -> (
    Seq<RunwayVisibility>,
    int,
) {
    match runway_visibility(s, pos) {
        None => (acc, pos),
        Some((v, p)) => more_runway_visibilities(s, p, with_visibility(acc, v)),
    }
}

/// The runway state groups that follow the one that ended at `pos`, added
/// to `acc` in the order in which they stand.
pub open spec fn more_runway_reports(s: Seq<u8>, pos: int, acc: Seq<RunwayReport>) -> (
    Seq<RunwayReport>,
    int,
)
    decreases s.len() - pos,
{
    match runway_report(s, whitespace(s, pos)) {
        Some((v, p)) => if pos < p <= s.len() {
            more_runway_reports(s, p, acc.push(v))
        } else {
            (acc, pos)
        },
        None => (acc, pos),
    }
}

/// Zero or more runway state groups, in the order in which they stand.
#[verifier::opaque]
pub open spec fn runway_reports(s: Seq<u8>, pos: int) -> (Seq<RunwayReport>, int) {
    match runway_report(s, pos) {
        None => (Seq::empty(), pos),
        Some((v, p)) => more_runway_reports(s, p, seq![v]),
    }
}

/// The designators of all of `v` lie within an input of `len` bytes.
pub open spec fn visibilities_within(v: Seq<RunwayVisibility>, len: usize) -> bool {
    forall|i: int| 0 <= i < v.len() ==> (#[trigger] v[i]).designator.lies_within(len)
}

/// The designators of all of `v` lie within an input of `len` bytes.
pub open spec fn reports_within(v: Seq<RunwayReport>, len: usize) -> bool {
    forall|i: int| 0 <= i < v.len() ==> (#[trigger] v[i]).designator.lies_within(len)
}

fn eat_side(input: &[u8], pos: usize) -> (e: usize)
    requires
        pos <= input.len(),
    ensures
        e == side(input@, pos as int),
        pos <= e <= input.len(),
{
    let l = eat(input, pos, "L");
    let r = if l.is_some() {
        l
    } else {
        let c = eat(input, pos, "C");
        if c.is_some() {
            c
        } else {
            let r = eat(input, pos, "R");
            if r.is_some() {
                r
            } else {
                eat(input, pos, "D")
            }
        }
    };
    match r {
        Some(p) => p,
        None => pos,
    }
}

fn eat_designator(input: &[u8], pos: usize) -> (r: Option<(Span, usize)>)
    requires
        pos <= input.len(),
    ensures
        agrees(r, designator(input@, pos as int), pos, input.len()),
        r matches Some((d, _)) ==> d.lies_within(input.len()),
{
    match eat_digits(input, pos) {
        Some(p) => {
            let e = eat_side(input, p);
            Some((Span { start: pos, end: e }, e))
        },
        None => None,
    }
}

fn eat_runway_report_info(input: &[u8], pos: usize) -> (r: Option<(RunwayReportInfo, usize)>)
    requires
        pos <= input.len(),
    ensures
        agrees(r, runway_report_info(input@, pos as int), pos, input.len()),
{
    match eat(input, pos, "CLRD") {
        None => None,
        Some(p) => match eat(input, p, "//") {
            Some(e) => Some((RunwayReportInfo::Cleared { friction: None }, e)),
            None => match eat_whole_number(input, p) {
                Some((n, e)) => Some((RunwayReportInfo::Cleared { friction: Some(n) }, e)),
                None => None,
            },
        },
    }
}

fn eat_runway_prefix(input: &[u8], pos: usize) -> (r: Option<(Span, usize)>)
    requires
        pos <= input.len(),
    ensures
        agrees(r, runway_prefix(input@, pos as int), pos, input.len()),
        r matches Some((d, _)) ==> d.lies_within(input.len()),
{
    match eat(input, pos, "R") {
        None => None,
        Some(p) => match eat_designator(input, p) {
            None => None,
            Some((d, q)) => match eat(input, q, "/") {
                None => None,
                Some(e) => if eat_runway_report_info(input, e).is_some() {
                    None
                } else {
                    Some((d, e))
                },
            },
        },
    }
}

fn eat_feet_or_meters(input: &[u8], pos: usize) -> (r: (LengthUnit, usize))
    requires
        pos <= input.len(),
    ensures
        follows(r, feet_or_meters(input@, pos as int), pos, input.len()),
{
    match eat(input, pos, "FT") {
        Some(e) => (LengthUnit::Foot, e),
        None => (LengthUnit::Meter, pos),
    }
}

fn make_raw(value: Amount, unit: LengthUnit, o: Option<OutOfRange>) -> (r: RawVisibility)
    ensures
        r == raw(value, unit, o),
{
    RawVisibility { distance: Length { value, unit }, out_of_range: o }
}

fn eat_raw_runway_visibility_range(input: &[u8], pos: usize) -> (r: Option<
    ((RawVisibility, RawVisibility), usize),
>)
    requires
        pos <= input.len(),
    ensures
        agrees(r, raw_runway_visibility_range(input@, pos as int), pos, input.len()),
{
    let lo = eat_out_of_range(input, pos);
    match eat_whole_number(input, lo.1) {
        None => None,
        Some((lower, p)) => match eat(input, p, "V") {
            None => None,
            Some(q) => {
                let uo = eat_out_of_range(input, q);
                match eat_whole_number(input, uo.1) {
                    None => None,
                    Some((upper, e)) => {
                        let u = eat_feet_or_meters(input, e);
                        Some(
                            (
                                (
                                    make_raw(Amount::Whole(lower), u.0, lo.0),
                                    make_raw(Amount::Whole(upper), u.0, uo.0),
                                ),
                                u.1,
                            ),
                        )
                    },
                }
            },
        },
    }
}

fn eat_raw_runway_visibility(input: &[u8], pos: usize) -> (r: Option<(RawVisibility, usize)>)
    requires
        pos <= input.len(),
    ensures
        agrees(r, raw_runway_visibility(input@, pos as int), pos, input.len()),
{
    let o = eat_out_of_range(input, pos);
    match eat_whole_number(input, o.1) {
        None => None,
        Some((n, e)) => {
            let u = eat_feet_or_meters(input, e);
            Some((make_raw(Amount::Whole(n), u.0, o.0), u.1))
        },
    }
}

fn eat_visibility_trend(input: &[u8], pos: usize) -> (r: (Option<VisibilityTrend>, usize))
    requires
        pos <= input.len(),
    ensures
        follows(r, visibility_trend(input@, pos as int), pos, input.len()),
{
    let p = eat_maybe(input, pos, "/").1;
    let d = eat_keyword(input, p, "D", VisibilityTrend::Down);
    let r = if d.is_some() {
        d
    } else {
        let n = eat_keyword(input, p, "N", VisibilityTrend::NoChange);
        if n.is_some() {
            n
        } else {
            eat_keyword(input, p, "U", VisibilityTrend::Up)
        }
    };
    match r {
        Some((t, e)) => (Some(t), e),
        None => (None, pos),
    }
}

fn eat_varying_runway_visibility(input: &[u8], pos: usize) -> (r: Option<
    (Option<RunwayVisibility>, usize),
>)
    requires
        pos <= input.len(),
    ensures
        agrees(r, varying_runway_visibility(input@, pos as int), pos, input.len()),
        r matches Some((Some(v), _)) ==> v.designator.lies_within(input.len()),
{
    match eat_runway_prefix(input, pos) {
        None => None,
        Some((d, p)) => match eat_raw_runway_visibility_range(input, p) {
            None => None,
            Some((range, q)) => {
                let t = eat_visibility_trend(input, q);
                Some(
                    (
                        Some(
                            RunwayVisibility {
                                designator: d,
                                visibility: VisibilityType::Varying {
                                    lower: range.0,
                                    upper: range.1,
                                },
                                trend: t.0,
                            },
                        ),
                        eat_maybe(input, t.1, "/").1,
                    ),
                )
            },
        },
    }
}

fn eat_fixed_runway_visibility(input: &[u8], pos: usize) -> (r: Option<
    (Option<RunwayVisibility>, usize),
>)
    requires
        pos <= input.len(),
    ensures
        agrees(r, fixed_runway_visibility(input@, pos as int), pos, input.len()),
        r matches Some((Some(v), _)) ==> v.designator.lies_within(input.len()),
{
    match eat_runway_prefix(input, pos) {
        None => None,
        Some((d, p)) => match eat_raw_runway_visibility(input, p) {
            None => None,
            Some((v, q)) => {
                let t = eat_visibility_trend(input, q);
                Some(
                    (
                        Some(
                            RunwayVisibility {
                                designator: d,
                                visibility: VisibilityType::Fixed(v),
                                trend: t.0,
                            },
                        ),
                        eat_maybe(input, t.1, "/").1,
                    ),
                )
            },
        },
    }
}

fn eat_missing_runway_visibility(input: &[u8], pos: usize) -> (r: Option<
    (Option<RunwayVisibility>, usize),
>)
    requires
        pos <= input.len(),
    ensures
        agrees(r, missing_runway_visibility(input@, pos as int), pos, input.len()),
        r matches Some((Some(v), _)) ==> v.designator.lies_within(input.len()),
{
    match eat(input, pos, "R") {
        None => None,
        Some(p) => {
            let q = match eat_designator(input, p) {
                Some((_, q)) => q,
                None => p,
            };
            match eat(input, q, "/////") {
                None => None,
                Some(r) => {
                    let e = skip_run(input, r, SLASH);
                    if boundary_here(input, e) {
                        Some((None, e))
                    } else {
                        None
                    }
                },
            }
        },
    }
}

/// Reads a runway visibility group at `pos`: the visibility it reports, or
/// none for the all-slash form, and the position after the group.
pub fn parse_runway_visibility(input: &[u8], pos: usize) -> (r: Option<
    (Option<RunwayVisibility>, usize),
>)
    requires
        pos <= input.len(),
    ensures
        agrees(r, runway_visibility(input@, pos as int), pos, input.len()),
        r matches Some((Some(v), _)) ==> v.designator.lies_within(input.len()),
{
    reveal(runway_visibility);
    let r = eat_varying_runway_visibility(input, pos);
    if r.is_some() {
        return r;
    }
    let r = eat_fixed_runway_visibility(input, pos);
    if r.is_some() {
        return r;
    }
    eat_missing_runway_visibility(input, pos)
}

/// Reads a runway state group at `pos`.
pub fn parse_runway_report(input: &[u8], pos: usize) -> (r: Option<(RunwayReport, usize)>)
    requires
        pos <= input.len(),
    ensures
        agrees(r, runway_report(input@, pos as int), pos, input.len()),
        r matches Some((v, _)) ==> v.designator.lies_within(input.len()),
{
    reveal(runway_report);
    match eat(input, pos, "R") {
        None => None,
        Some(p) => match eat_designator(input, p) {
            None => None,
            Some((d, q)) => match eat(input, q, "/") {
                None => None,
                Some(r) => match eat_runway_report_info(input, r) {
                    Some((info, e)) => Some((RunwayReport { designator: d, report_info: info }, e)),
                    None => None,
                },
            },
        },
    }
}

/// Reads zero or more runway visibility groups at `pos` and puts what they
/// report behind the items of `acc`.
pub fn parse_runway_visibilities(input: &[u8], pos: usize, acc: &mut Vec<RunwayVisibility>) -> (e:
    usize)
    requires
        pos <= input.len(),
        visibilities_within(old(acc)@, input.len()),
    ensures
        final(acc)@ == runway_visibilities(input@, pos as int, old(acc)@).0,
        e == runway_visibilities(input@, pos as int, old(acc)@).1,
        pos <= e <= input.len(),
        visibilities_within(final(acc)@, input.len()),
{
    reveal(runway_visibilities);
    match parse_runway_visibility(input, pos) {
        None => pos,
        Some((first, start)) => {
            match first {
                Some(v) => {
                    acc.push(v);
                },
                None => {},
            }
            let mut cur: usize = start;
            loop
                invariant
                    pos <= start <= cur <= input.len(),
                    runway_visibilities(input@, pos as int, old(acc)@) == more_runway_visibilities(
                        input@,
                        cur as int,
                        acc@,
                    ),
                    visibilities_within(acc@, input.len()),
                decreases input.len() - cur,
            {
                match parse_runway_visibility(input, skip_whitespace(input, cur)) {
                    Some((v, p)) => {
                        if cur < p {
                            match v {
                                Some(v) => {
                                    acc.push(v);
                                },
                                None => {},
                            }
                            cur = p;
                        } else {
                            return cur;
                        }
                    },
                    None => {
                        return cur;
                    },
                }
            }
        },
    }
}

/// Reads zero or more runway state groups at `pos`.
pub fn parse_runway_reports(input: &[u8], pos: usize) -> (r: (Vec<RunwayReport>, usize))
    requires
        pos <= input.len(),
    ensures
        r.0@ == runway_reports(input@, pos as int).0,
        r.1 == runway_reports(input@, pos as int).1,
        pos <= r.1 <= input.len(),
        reports_within(r.0@, input.len()),
{
    reveal(runway_reports);
    let mut acc: Vec<RunwayReport> = Vec::new();
    match parse_runway_report(input, pos) {
        None => (acc, pos),
        Some((first, start)) => {
            acc.push(first);
            assert(acc@ =~= seq![first]);
            let mut cur: usize = start;
            loop
                invariant
                    pos <= start <= cur <= input.len(),
                    runway_reports(input@, pos as int) == more_runway_reports(
                        input@,
                        cur as int,
                        acc@,
                    ),
                    reports_within(acc@, input.len()),
                decreases input.len() - cur,
            {
                match parse_runway_report(input, skip_whitespace(input, cur)) {
                    Some((v, p)) => {
                        if cur < p {
                            acc.push(v);
                            cur = p;
                        } else {
                            return (acc, cur);
                        }
                    },
                    None => {
                        return (acc, cur);
                    },
                }
            }
        },
    }
}

} // verus!
