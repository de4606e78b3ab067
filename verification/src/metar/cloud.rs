//! Cloud layers.

use crate::lexical::{
    after, agrees, agrees_at, digit_at, digit_here, eat, eat_keyword, eat_three_digits,
    eat_whitespace_or_end, follows, keyword, number, or, read_number, run_end, saturated,
    skip_run, skip_whitespace, three_digits, whitespace, whitespace_or_end, SLASH,
};
use crate::tokens::{Amount, CloudCover, CloudCoverage, CloudType, Length, LengthUnit};
use vstd::prelude::*;

verus! {

/// The keyword of a cloud coverage; `FW` and `SC` are read as `FEW` and
/// `SCT`.
pub open spec fn cloud_coverage(s: Seq<u8>, pos: int) -> Option<(CloudCoverage, int)> {
    or(
        keyword(s, pos, "SKC", CloudCoverage::SkyClear),
        or(
            keyword(s, pos, "CLR", CloudCoverage::Clear),
            or(
                keyword(s, pos, "NCD", CloudCoverage::NoCloudDetected),
                or(
                    keyword(s, pos, "NSC", CloudCoverage::NoSignificantCloud),
                    or(
                        keyword(s, pos, "FEW", CloudCoverage::Few),
                        or(
                            keyword(s, pos, "FW", CloudCoverage::Few),
                            or(
                                keyword(s, pos, "SCT", CloudCoverage::Scattered),
                                or(
                                    keyword(s, pos, "SC", CloudCoverage::Scattered),
                                    or(
                                        keyword(s, pos, "BKN", CloudCoverage::Broken),
                                        or(
                                            keyword(s, pos, "OVC", CloudCoverage::Overcast),
                                            keyword(
                                                s,
                                                pos,
                                                "VV",
                                                CloudCoverage::VerticalVisibility,
                                            ),
                                        ),
                                    ),
                                ),
                            ),
                        ),
                    ),
                ),
            ),
        ),
    )
}

/// A cloud type, or three slashes for a type that is not known.
pub open spec fn cloud_type(s: Seq<u8>, pos: int) -> Option<(Option<CloudType>, int)> {
    or(
        keyword(s, pos, "CB", Some(CloudType::Cumulonimbus)),
        or(
            keyword(s, pos, "TCU", Some(CloudType::ToweringCumulus)),
            or(
                keyword(s, pos, "CU", Some(CloudType::Cumulus)),
                or(
                    keyword(s, pos, "CI", Some(CloudType::Cirrus)),
                    or(
                        keyword(s, pos, "AC", Some(CloudType::Altocumulus)),
                        or(
                            keyword(s, pos, "ST", Some(CloudType::Stratus)),
                            keyword(s, pos, "///", None),
                        ),
                    ),
                ),
            ),
        ),
    )
}

/// The cloud type where one is written, and the position after it.
pub open spec fn optional_cloud_type(s: Seq<u8>, pos: int) -> (Option<CloudType>, int) {
    match cloud_type(s, pos) {
        Some((t, e)) => (t, e),
        None => (None, pos),
    }
}

/// Four digits where four stand, else three.
pub open spec fn base_digits(s: Seq<u8>, pos: int) -> Option<int> {
    match three_digits(s, pos) {
        Some(p) => if digit_at(s, p) {
            Some(p + 1)
        } else {
            Some(p)
        },
        None => None,
    }
}

/// The height of a cloud base: hundreds of feet.
pub open spec fn hundreds_of_feet(n: u64) -> Length {
    Length { value: Amount::Whole(saturated((n * 100) as nat)), unit: LengthUnit::Foot }
}

/// Slashes and a cloud type: nothing is reported.
pub open spec fn missing_cloud_cover(s: Seq<u8>, pos: int) -> Option<(Option<CloudCover>, int)> {
    if run_end(s, pos, SLASH) > pos {
        match cloud_type(s, run_end(s, pos, SLASH)) {
            Some((_, e)) => Some((None, e)),
            None => None,
        }
    } else {
        None
    }
}

/// A coverage with three slashes for its height, and a type where one is
/// written.
pub open spec fn cover_without_base(s: Seq<u8>, pos: int) -> Option<(Option<CloudCover>, int)> {
    match cloud_coverage(s, pos) {
        None => None,
        Some((coverage, p)) => match after(s, whitespace(s, p), "///") {
            None => None,
            Some(q) => {
                let t = optional_cloud_type(s, whitespace(s, q));
                Some((Some(CloudCover { coverage, base: None, cloud_type: t.0 }), t.1))
            },
        },
    }
}

/// A coverage and a height.
pub open spec fn cover_and_base(s: Seq<u8>, pos: int) -> Option<((CloudCoverage, Length), int)> {
    match cloud_coverage(s, pos) {
        None => None,
        Some((coverage, p)) => match base_digits(s, whitespace(s, p)) {
            None => None,
            Some(q) => Some(
                ((coverage, hundreds_of_feet(number(s, whitespace(s, p), q))), whitespace(s, q)),
            ),
        },
    }
}

/// A coverage and a height with two slashes for the type, at the end of the
/// token.
pub open spec fn cover_without_type(s: Seq<u8>, pos: int) -> Option<(Option<CloudCover>, int)> {
    match cover_and_base(s, pos) {
        None => None,
        Some(((coverage, base), p)) => match after(s, p, "//") {
            None => None,
            Some(q) => match whitespace_or_end(s, q) {
                Some(e) => Some(
                    (Some(CloudCover { coverage, base: Some(base), cloud_type: None }), e),
                ),
                None => None,
            },
        },
    }
}

/// A coverage and a height, and a type where one is written.
pub open spec fn cover_with_base(s: Seq<u8>, pos: int) -> Option<(Option<CloudCover>, int)> {
    match cover_and_base(s, pos) {
        None => None,
        Some(((coverage, base), p)) => {
            let t = optional_cloud_type(s, p);
            Some((Some(CloudCover { coverage, base: Some(base), cloud_type: t.0 }), t.1))
        },
    }
}

/// A coverage alone.
pub open spec fn cover_alone(s: Seq<u8>, pos: int) -> Option<(Option<CloudCover>, int)> {
    match cloud_coverage(s, pos) {
        None => None,
        Some((coverage, e)) => Some(
            (Some(CloudCover { coverage, base: None, cloud_type: None }), e),
        ),
    }
}

/// One cloud group, by the first form that matches: slashes with a cloud
/// type (nothing reported), a coverage without a height, a coverage and a
/// height without a type, a coverage and a height, a coverage alone.
#[verifier::opaque]
pub open spec fn cloud_cover(s: Seq<u8>, pos: int) -> Option<(Option<CloudCover>, int)> {
    or(
        missing_cloud_cover(s, pos),
        or(
            cover_without_base(s, pos),
            or(cover_without_type(s, pos), or(cover_with_base(s, pos), cover_alone(s, pos))),
        ),
    )
}

/// `acc` with `c` behind it where there is one.
pub open spec fn with_layer(acc: Seq<CloudCover>, c: Option<CloudCover>) -> Seq<CloudCover> {
    match c {
        Some(c) => acc.push(c),
        None => acc,
    }
}

/// The cloud groups that follow the one that ended at `pos`, each behind
/// whitespace where there is any, added to `acc` in the order in which they
/// stand.
pub open spec fn more_cloud_cover(s: Seq<u8>, pos: int, acc: Seq<CloudCover>) -> (
    Seq<CloudCover>,
    int,
)
    decreases s.len() - pos,
{
    match cloud_cover(s, whitespace(s, pos)) {
        Some((c, p)) => if pos < p <= s.len() {
            more_cloud_cover(s, p, with_layer(acc, c))
        } else {
            (acc, pos)
        },
        None => (acc, pos),
    }
}

/// Zero or more cloud groups: the layers they report, in the order in
/// which they stand, added to `acc`.
#[verifier::opaque]
pub open spec fn cloud_layers(s: Seq<u8>, pos: int, acc: Seq<CloudCover>) -> (
    Seq<CloudCover>,
    int,
) {
    match cloud_cover(s, pos) {
        None => (acc, pos),
        Some((c, p)) => more_cloud_cover(s, p, with_layer(acc, c)),
    }
}

fn eat_cloud_coverage(input: &[u8], pos: usize) -> (r: Option<(CloudCoverage, usize)>)
    requires
        pos <= input.len(),
    ensures
        agrees(r, cloud_coverage(input@, pos as int), pos, input.len()),
{
    let r = eat_keyword(input, pos, "SKC", CloudCoverage::SkyClear);
    if r.is_some() {
        return r;
    }
    let r = eat_keyword(input, pos, "CLR", CloudCoverage::Clear);
    if r.is_some() {
        return r;
    }
    let r = eat_keyword(input, pos, "NCD", CloudCoverage::NoCloudDetected);
    if r.is_some() {
        return r;
    }
    let r = eat_keyword(input, pos, "NSC", CloudCoverage::NoSignificantCloud);
    if r.is_some() {
        return r;
    }
    let r = eat_keyword(input, pos, "FEW", CloudCoverage::Few);
    if r.is_some() {
        return r;
    }
    let r = eat_keyword(input, pos, "FW", CloudCoverage::Few);
    if r.is_some() {
        return r;
    }
    let r = eat_keyword(input, pos, "SCT", CloudCoverage::Scattered);
    if r.is_some() {
        return r;
    }
    let r = eat_keyword(input, pos, "SC", CloudCoverage::Scattered);
    if r.is_some() {
        return r;
    }
    let r = eat_keyword(input, pos, "BKN", CloudCoverage::Broken);
    if r.is_some() {
        return r;
    }
    let r = eat_keyword(input, pos, "OVC", CloudCoverage::Overcast);
    if r.is_some() {
        return r;
    }
    eat_keyword(input, pos, "VV", CloudCoverage::VerticalVisibility)
}

fn eat_cloud_type(input: &[u8], pos: usize) -> (r: Option<(Option<CloudType>, usize)>)
    requires
        pos <= input.len(),
    ensures
        agrees(r, cloud_type(input@, pos as int), pos, input.len()),
{
    let r = eat_keyword(input, pos, "CB", Some(CloudType::Cumulonimbus));
    if r.is_some() {
        return r;
    }
    let r = eat_keyword(input, pos, "TCU", Some(CloudType::ToweringCumulus));
    if r.is_some() {
        return r;
    }
    let r = eat_keyword(input, pos, "CU", Some(CloudType::Cumulus));
    if r.is_some() {
        return r;
    }
    let r = eat_keyword(input, pos, "CI", Some(CloudType::Cirrus));
    if r.is_some() {
        return r;
    }
    let r = eat_keyword(input, pos, "AC", Some(CloudType::Altocumulus));
    if r.is_some() {
        return r;
    }
    let r = eat_keyword(input, pos, "ST", Some(CloudType::Stratus));
    if r.is_some() {
        return r;
    }
    eat_keyword(input, pos, "///", None)
}

fn eat_optional_cloud_type(input: &[u8], pos: usize) -> (r: (Option<CloudType>, usize))
    requires
        pos <= input.len(),
    ensures
        follows(r, optional_cloud_type(input@, pos as int), pos, input.len()),
{
    match eat_cloud_type(input, pos) {
        Some((t, e)) => (t, e),
        None => (None, pos),
    }
}

fn eat_base_digits(input: &[u8], pos: usize) -> (r: Option<usize>)
    requires
        pos <= input.len(),
    ensures
        agrees_at(r, base_digits(input@, pos as int), pos, input.len()),
{
    match eat_three_digits(input, pos) {
        Some(p) => if digit_here(input, p) {
            Some(p + 1)
        } else {
            Some(p)
        },
        None => None,
    }
}

fn to_hundreds_of_feet(n: u64) -> (r: Length)
    ensures
        r == hundreds_of_feet(n),
{
    let value: u64 = if n > u64::MAX / 100 {
        u64::MAX
    } else {
        n * 100
    };
    Length { value: Amount::Whole(value), unit: LengthUnit::Foot }
}

fn eat_missing_cloud_cover(input: &[u8], pos: usize) -> (r: Option<(Option<CloudCover>, usize)>)
    requires
        pos <= input.len(),
    ensures
        agrees(r, missing_cloud_cover(input@, pos as int), pos, input.len()),
{
    let p = skip_run(input, pos, SLASH);
    if p > pos {
        match eat_cloud_type(input, p) {
            Some((_, e)) => Some((None, e)),
            None => None,
        }
    } else {
        None
    }
}

fn eat_cover_without_base(input: &[u8], pos: usize) -> (r: Option<(Option<CloudCover>, usize)>)
    requires
        pos <= input.len(),
    ensures
        agrees(r, cover_without_base(input@, pos as int), pos, input.len()),
{
    match eat_cloud_coverage(input, pos) {
        None => None,
        Some((coverage, p)) => match eat(input, skip_whitespace(input, p), "///") {
            None => None,
            Some(q) => {
                let t = eat_optional_cloud_type(input, skip_whitespace(input, q));
                Some((Some(CloudCover { coverage, base: None, cloud_type: t.0 }), t.1))
            },
        },
    }
}

fn eat_cover_and_base(input: &[u8], pos: usize) -> (r: Option<((CloudCoverage, Length), usize)>)
    requires
        pos <= input.len(),
    ensures
        agrees(r, cover_and_base(input@, pos as int), pos, input.len()),
{
    match eat_cloud_coverage(input, pos) {
        None => None,
        Some((coverage, p)) => {
            let b = skip_whitespace(input, p);
            match eat_base_digits(input, b) {
                None => None,
                Some(q) => Some(
                    (
                        (coverage, to_hundreds_of_feet(read_number(input, b, q))),
                        skip_whitespace(input, q),
                    ),
                ),
            }
        },
    }
}

fn eat_cover_without_type(input: &[u8], pos: usize) -> (r: Option<(Option<CloudCover>, usize)>)
    requires
        pos <= input.len(),
    ensures
        agrees(r, cover_without_type(input@, pos as int), pos, input.len()),
{
    match eat_cover_and_base(input, pos) {
        None => None,
        Some(((coverage, base), p)) => match eat(input, p, "//") {
            None => None,
            Some(q) => match eat_whitespace_or_end(input, q) {
                Some(e) => Some(
                    (Some(CloudCover { coverage, base: Some(base), cloud_type: None }), e),
                ),
                None => None,
            },
        },
    }
}

fn eat_cover_with_base(input: &[u8], pos: usize) -> (r: Option<(Option<CloudCover>, usize)>)
    requires
        pos <= input.len(),
    ensures
        agrees(r, cover_with_base(input@, pos as int), pos, input.len()),
{
    match eat_cover_and_base(input, pos) {
        None => None,
        Some(((coverage, base), p)) => {
            let t = eat_optional_cloud_type(input, p);
            Some((Some(CloudCover { coverage, base: Some(base), cloud_type: t.0 }), t.1))
        },
    }
}

fn eat_cover_alone(input: &[u8], pos: usize) -> (r: Option<(Option<CloudCover>, usize)>)
    requires
        pos <= input.len(),
    ensures
        agrees(r, cover_alone(input@, pos as int), pos, input.len()),
{
    match eat_cloud_coverage(input, pos) {
        None => None,
        Some((coverage, e)) => Some(
            (Some(CloudCover { coverage, base: None, cloud_type: None }), e),
        ),
    }
}

/// Reads one cloud group at `pos`: the layer it reports, or none for the
/// slashes that report nothing, and the position after the group.
pub fn parse_cloud_cover(input: &[u8], pos: usize) -> (r: Option<(Option<CloudCover>, usize)>)
    requires
        pos <= input.len(),
    ensures
        agrees(r, cloud_cover(input@, pos as int), pos, input.len()),
{
    reveal(cloud_cover);
    let r = eat_missing_cloud_cover(input, pos);
    if r.is_some() {
        return r;
    }
    let r = eat_cover_without_base(input, pos);
    if r.is_some() {
        return r;
    }
    let r = eat_cover_without_type(input, pos);
    if r.is_some() {
        return r;
    }
    let r = eat_cover_with_base(input, pos);
    if r.is_some() {
        return r;
    }
    eat_cover_alone(input, pos)
}

/// Reads zero or more cloud groups at `pos` and puts the layers they report
/// behind those of `acc`.
pub fn parse_cloud_layers(input: &[u8], pos: usize, acc: &mut Vec<CloudCover>) -> (e: usize)
    requires
        pos <= input.len(),
    ensures
        final(acc)@ == cloud_layers(input@, pos as int, old(acc)@).0,
        e == cloud_layers(input@, pos as int, old(acc)@).1,
        pos <= e <= input.len(),
{
    reveal(cloud_layers);
    match parse_cloud_cover(input, pos) {
        None => pos,
        Some((first, start)) => {
            match first {
                Some(c) => {
                    acc.push(c);
                },
                None => {},
            }
            let mut cur: usize = start;
            loop
                invariant
                    pos <= start <= cur <= input.len(),
                    cloud_layers(input@, pos as int, old(acc)@) == more_cloud_cover(
                        input@,
                        cur as int,
                        acc@,
                    ),
                decreases input.len() - cur,
            {
                match parse_cloud_cover(input, skip_whitespace(input, cur)) {
                    Some((c, p)) => {
                        if cur < p {
                            match c {
                                Some(c) => {
                                    acc.push(c);
                                },
                                None => {},
                            }
                            cur = p;
                        } else {
                            return cur;
                        }
                    },
                    None => {
                        return cur;
                    },
                }
            }
        },
    }
}

} // verus!
