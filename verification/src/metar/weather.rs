//! Weather phenomena: present weather and recent weather.

use crate::lexical::{
    after, at_boundary, boundary_here, eat, eat_keyword, eat_maybe, follows, agrees, keyword,
    maybe, or, skip_whitespace, whitespace,
};
use crate::tokens::{
    weather_models, Condition, ConditionModel, Descriptor, Intensity, Obscuration, Other,
    Precipitation, Weather, WeatherModel,
};
use vstd::prelude::*;

verus! {

/// `-` for light, `+` for heavy; moderate where neither is written.
pub open spec fn intensity(s: Seq<u8>, pos: int) -> (Intensity, int) {
    match or(keyword(s, pos, "+", Intensity::Heavy), keyword(s, pos, "-", Intensity::Light)) {
        Some((i, p)) => (i, p),
        None => (Intensity::Moderate, pos),
    }
}

/// The keyword of a descriptor.
pub open spec fn descriptor(s: Seq<u8>, pos: int) -> Option<(Descriptor, int)> {
    or(
        keyword(s, pos, "MI", Descriptor::Shallow),
        or(
            keyword(s, pos, "PR", Descriptor::Partial),
            or(
                keyword(s, pos, "BC", Descriptor::Patches),
                or(
                    keyword(s, pos, "DR", Descriptor::LowDrifting),
                    or(
                        keyword(s, pos, "BL", Descriptor::Blowing),
                        or(
                            keyword(s, pos, "SH", Descriptor::Showers),
                            or(
                                keyword(s, pos, "TS", Descriptor::Thunderstorm),
                                keyword(s, pos, "FZ", Descriptor::Freezing),
                            ),
                        ),
                    ),
                ),
            ),
        ),
    )
}

/// The descriptor where one is written.
pub open spec fn optional_descriptor(s: Seq<u8>, pos: int) -> (Option<Descriptor>, int) {
    match descriptor(s, pos) {
        Some((d, p)) => (Some(d), p),
        None => (None, pos),
    }
}

/// The keyword of a kind of precipitation.
pub open spec fn precipitation(s: Seq<u8>, pos: int) -> Option<(Precipitation, int)> {
    or(
        keyword(s, pos, "RA", Precipitation::Rain),
        or(
            keyword(s, pos, "DZ", Precipitation::Drizzle),
            or(
                keyword(s, pos, "SN", Precipitation::Snow),
                or(
                    keyword(s, pos, "SG", Precipitation::SnowGrains),
                    or(
                        keyword(s, pos, "IC", Precipitation::IceCrystals),
                        or(
                            keyword(s, pos, "PL", Precipitation::IcePellets),
                            or(
                                keyword(s, pos, "GR", Precipitation::Hail),
                                or(
                                    keyword(s, pos, "GS", Precipitation::SmallHail),
                                    keyword(s, pos, "UP", Precipitation::Unknown),
                                ),
                            ),
                        ),
                    ),
                ),
            ),
        ),
    )
}

/// The keyword of an obscuration.
pub open spec fn obscuration(s: Seq<u8>, pos: int) -> Option<(Obscuration, int)> {
    or(
        keyword(s, pos, "FG", Obscuration::Fog),
        or(
            keyword(s, pos, "BR", Obscuration::Mist),
            or(
                keyword(s, pos, "HZ", Obscuration::Haze),
                or(
                    keyword(s, pos, "VA", Obscuration::VolcanicAsh),
                    or(
                        keyword(s, pos, "DU", Obscuration::Dust),
                        or(
                            keyword(s, pos, "FU", Obscuration::Smoke),
                            or(
                                keyword(s, pos, "SA", Obscuration::Sand),
                                keyword(s, pos, "PY", Obscuration::Spray),
                            ),
                        ),
                    ),
                ),
            ),
        ),
    )
}

/// The keyword of another phenomenon.
pub open spec fn other(s: Seq<u8>, pos: int) -> Option<(Other, int)> {
    or(
        keyword(s, pos, "SQ", Other::Squall),
        or(
            keyword(s, pos, "PO", Other::DustWhirls),
            or(
                keyword(s, pos, "DS", Other::Duststorm),
                or(
                    keyword(s, pos, "SS", Other::Sandstorm),
                    keyword(s, pos, "FC", Other::FunnelCloud),
                ),
            ),
        ),
    )
}

/// The precipitation codes from `pos` on, each behind the last, added to
/// `acc` in the order in which they stand.
pub open spec fn precipitations(s: Seq<u8>, pos: int, acc: Seq<Precipitation>) -> (
    Seq<Precipitation>,
    int,
)
    decreases s.len() - pos,
{
    match precipitation(s, pos) {
        Some((v, p)) => if pos < p <= s.len() {
            precipitations(s, p, acc.push(v))
        } else {
            (acc, pos)
        },
        None => (acc, pos),
    }
}

/// One weather group: intensity, `VC`, a descriptor, and then one or more
/// precipitation codes, else one obscuration, else one other phenomenon,
/// else nothing where a descriptor stands alone.
#[verifier::opaque]
pub open spec fn weather(s: Seq<u8>, pos: int) -> Option<(WeatherModel, int)> {
    let i = intensity(s, pos);
    let vc = maybe(s, i.1, "VC");
    let d = optional_descriptor(s, vc.1);
    let l = precipitations(s, d.1, Seq::empty());
    if l.0.len() > 0 {
        Some((group(i.0, vc.0, d.0, Some(ConditionModel::Precipitation(l.0))), l.1))
    } else {
        match obscuration(s, d.1) {
            Some((o, e)) => Some((group(i.0, vc.0, d.0, Some(ConditionModel::Obscuration(o))), e)),
            None => match other(s, d.1) {
                Some((o, e)) => Some((group(i.0, vc.0, d.0, Some(ConditionModel::Other(o))), e)),
                None => if d.0 is Some {
                    Some((group(i.0, vc.0, d.0, None), d.1))
                } else {
                    None
                },
            },
        }
    }
}

/// A weather group of these parts.
pub open spec fn group(
    intensity: Intensity,
    vicinity: bool,
    descriptor: Option<Descriptor>,
    condition: Option<ConditionModel>,
) -> WeatherModel {
    WeatherModel { intensity, vicinity, descriptor, condition }
}

/// The weather groups that follow the one that ended at `pos`, each behind
/// whitespace where there is any, added to `acc` in the order in which they
/// stand.
pub open spec fn more_weather(s: Seq<u8>, pos: int, acc: Seq<WeatherModel>) -> (
    Seq<WeatherModel>,
    int,
)
    decreases s.len() - pos,
{
    match weather(s, whitespace(s, pos)) {
        Some((w, p)) => if pos < p <= s.len() {
            more_weather(s, p, acc.push(w))
        } else {
            (acc, pos)
        },
        None => (acc, pos),
    }
}

/// One or more weather groups, the last of which ends its token.
#[verifier::opaque]
pub open spec fn weather_sequence(s: Seq<u8>, pos: int) -> Option<(Seq<WeatherModel>, int)> {
    match weather(s, pos) {
        None => None,
        Some((w, p)) => {
            let l = more_weather(s, p, seq![w]);
            if at_boundary(s, l.1) {
                Some(l)
            } else {
                None
            }
        },
    }
}

/// One recent weather group: `RE` and a weather group, or `RE//` for
/// nothing, ending its token.
#[verifier::opaque]
pub open spec fn recent_weather(s: Seq<u8>, pos: int) -> Option<(Option<WeatherModel>, int)> {
    let full = match after(s, pos, "RE") {
        None => None,
        Some(p) => match weather(s, p) {
            Some((w, e)) => if at_boundary(s, e) {
                Some((Some(w), e))
            } else {
                None
            },
            None => None,
        },
    };
    if full is Some {
        full
    } else {
        match after(s, pos, "RE//") {
            Some(e) => if at_boundary(s, e) {
                Some((None, e))
            } else {
                None
            },
            None => None,
        }
    }
}

/// The model of a weather group where there is one.
pub open spec fn model_of(w: Option<Weather>) -> Option<WeatherModel> {
    match w {
        Some(w) => Some(w@),
        None => None,
    }
}

/// `acc` with `w` behind it where there is one.
pub open spec fn with_group(acc: Seq<WeatherModel>, w: Option<WeatherModel>) -> Seq<WeatherModel> {
    match w {
        Some(w) => acc.push(w),
        None => acc,
    }
}

/// The recent weather groups that follow the one that ended at `pos`.
pub open spec fn more_recent_weather(s: Seq<u8>, pos: int, acc: Seq<WeatherModel>) -> (
    Seq<WeatherModel>,
    int,
)
    decreases s.len() - pos,
{
    match recent_weather(s, whitespace(s, pos)) {
        Some((w, p)) => if pos < p <= s.len() {
            more_recent_weather(s, p, with_group(acc, w))
        } else {
            (acc, pos)
        },
        None => (acc, pos),
    }
}

/// One or more recent weather groups, the last of which ends its token;
/// the groups that report something, in the order in which they stand.
#[verifier::opaque]
pub open spec fn recent_weather_sequence(s: Seq<u8>, pos: int) -> Option<
    (Seq<WeatherModel>, int),
> {
    match recent_weather(s, pos) {
        None => None,
        Some((w, p)) => {
            let l = more_recent_weather(s, p, with_group(Seq::empty(), w));
            if at_boundary(s, l.1) {
                Some(l)
            } else {
                None
            }
        },
    }
}

/// What a weather parser returned, held against the grammar.
pub open spec fn agrees_weather(
    r: Option<(Weather, usize)>,
    m: Option<(WeatherModel, int)>,
    pos: usize,
    len: usize,
) -> bool {
    match r {
        Some((w, p)) => m == Some((w@, p as int)) && pos <= p <= len,
        None => m is None,
    }
}

/// What a parser of weather sequences returned, held against the grammar.
pub open spec fn agrees_weathers(
    r: Option<(Vec<Weather>, usize)>,
    m: Option<(Seq<WeatherModel>, int)>,
    pos: usize,
    len: usize,
) -> bool {
    match r {
        Some((l, p)) => m == Some((weather_models(l@), p as int)) && pos <= p <= len,
        None => m is None,
    }
}

/// The models of a sequence with one more group are the models of the
/// sequence with the model of that group behind them.
pub proof fn lemma_models_push(v: Seq<Weather>, w: Weather)
    ensures
        weather_models(v.push(w)) == weather_models(v).push(w@),
{
    assert(weather_models(v.push(w)) =~= weather_models(v).push(w@));
}

fn eat_intensity(input: &[u8], pos: usize) -> (r: (Intensity, usize))
    requires
        pos <= input.len(),
    ensures
        follows(r, intensity(input@, pos as int), pos, input.len()),
{
    let h = eat_keyword(input, pos, "+", Intensity::Heavy);
    let r = if h.is_some() {
        h
    } else {
        eat_keyword(input, pos, "-", Intensity::Light)
    };
    match r {
        Some((i, p)) => (i, p),
        None => (Intensity::Moderate, pos),
    }
}

fn eat_descriptor(input: &[u8], pos: usize) -> (r: Option<(Descriptor, usize)>)
    requires
        pos <= input.len(),
    ensures
        agrees(r, descriptor(input@, pos as int), pos, input.len()),
{
    let r = eat_keyword(input, pos, "MI", Descriptor::Shallow);
    if r.is_some() {
        return r;
    }
    let r = eat_keyword(input, pos, "PR", Descriptor::Partial);
    if r.is_some() {
        return r;
    }
    let r = eat_keyword(input, pos, "BC", Descriptor::Patches);
    if r.is_some() {
        return r;
    }
    let r = eat_keyword(input, pos, "DR", Descriptor::LowDrifting);
    if r.is_some() {
        return r;
    }
    let r = eat_keyword(input, pos, "BL", Descriptor::Blowing);
    if r.is_some() {
        return r;
    }
    let r = eat_keyword(input, pos, "SH", Descriptor::Showers);
    if r.is_some() {
        return r;
    }
    let r = eat_keyword(input, pos, "TS", Descriptor::Thunderstorm);
    if r.is_some() {
        return r;
    }
    eat_keyword(input, pos, "FZ", Descriptor::Freezing)
}

fn eat_optional_descriptor(input: &[u8], pos: usize) -> (r: (Option<Descriptor>, usize))
    requires
        pos <= input.len(),
    ensures
        follows(r, optional_descriptor(input@, pos as int), pos, input.len()),
{
    match eat_descriptor(input, pos) {
        Some((d, p)) => (Some(d), p),
        None => (None, pos),
    }
}

fn eat_precipitation(input: &[u8], pos: usize) -> (r: Option<(Precipitation, usize)>)
    requires
        pos <= input.len(),
    ensures
        agrees(r, precipitation(input@, pos as int), pos, input.len()),
{
    let r = eat_keyword(input, pos, "RA", Precipitation::Rain);
    if r.is_some() {
        return r;
    }
    let r = eat_keyword(input, pos, "DZ", Precipitation::Drizzle);
    if r.is_some() {
        return r;
    }
    let r = eat_keyword(input, pos, "SN", Precipitation::Snow);
    if r.is_some() {
        return r;
    }
    let r = eat_keyword(input, pos, "SG", Precipitation::SnowGrains);
    if r.is_some() {
        return r;
    }
    let r = eat_keyword(input, pos, "IC", Precipitation::IceCrystals);
    if r.is_some() {
        return r;
    }
    let r = eat_keyword(input, pos, "PL", Precipitation::IcePellets);
    if r.is_some() {
        return r;
    }
    let r = eat_keyword(input, pos, "GR", Precipitation::Hail);
    if r.is_some() {
        return r;
    }
    let r = eat_keyword(input, pos, "GS", Precipitation::SmallHail);
    if r.is_some() {
        return r;
    }
    eat_keyword(input, pos, "UP", Precipitation::Unknown)
}

fn eat_obscuration(input: &[u8], pos: usize) -> (r: Option<(Obscuration, usize)>)
    requires
        pos <= input.len(),
    ensures
        agrees(r, obscuration(input@, pos as int), pos, input.len()),
{
    let r = eat_keyword(input, pos, "FG", Obscuration::Fog);
    if r.is_some() {
        return r;
    }
    let r = eat_keyword(input, pos, "BR", Obscuration::Mist);
    if r.is_some() {
        return r;
    }
    let r = eat_keyword(input, pos, "HZ", Obscuration::Haze);
    if r.is_some() {
        return r;
    }
    let r = eat_keyword(input, pos, "VA", Obscuration::VolcanicAsh);
    if r.is_some() {
        return r;
    }
    let r = eat_keyword(input, pos, "DU", Obscuration::Dust);
    if r.is_some() {
        return r;
    }
    let r = eat_keyword(input, pos, "FU", Obscuration::Smoke);
    if r.is_some() {
        return r;
    }
    let r = eat_keyword(input, pos, "SA", Obscuration::Sand);
    if r.is_some() {
        return r;
    }
    eat_keyword(input, pos, "PY", Obscuration::Spray)
}

fn eat_other(input: &[u8], pos: usize) -> (r: Option<(Other, usize)>)
    requires
        pos <= input.len(),
    ensures
        agrees(r, other(input@, pos as int), pos, input.len()),
{
    let r = eat_keyword(input, pos, "SQ", Other::Squall);
    if r.is_some() {
        return r;
    }
    let r = eat_keyword(input, pos, "PO", Other::DustWhirls);
    if r.is_some() {
        return r;
    }
    let r = eat_keyword(input, pos, "DS", Other::Duststorm);
    if r.is_some() {
        return r;
    }
    let r = eat_keyword(input, pos, "SS", Other::Sandstorm);
    if r.is_some() {
        return r;
    }
    eat_keyword(input, pos, "FC", Other::FunnelCloud)
}

fn eat_precipitations(input: &[u8], pos: usize) -> (r: (Vec<Precipitation>, usize))
    requires
        pos <= input.len(),
    ensures
        r.0@ == precipitations(input@, pos as int, Seq::empty()).0,
        r.1 == precipitations(input@, pos as int, Seq::empty()).1,
        pos <= r.1 <= input.len(),
{
    let mut acc: Vec<Precipitation> = Vec::new();
    let mut cur: usize = pos;
    loop
        invariant
            pos <= cur <= input.len(),
            precipitations(input@, pos as int, Seq::empty()) == precipitations(
                input@,
                cur as int,
                acc@,
            ),
        decreases input.len() - cur,
    {
        match eat_precipitation(input, cur) {
            Some((v, p)) => {
                if cur < p {
                    acc.push(v);
                    cur = p;
                } else {
                    return (acc, cur);
                }
            },
            None => {
                return (acc, cur);
            },
        }
    }
}

/// Reads one weather group at `pos`.
pub fn parse_weather(input: &[u8], pos: usize) -> (r: Option<(Weather, usize)>)
    requires
        pos <= input.len(),
    ensures
        agrees_weather(r, weather(input@, pos as int), pos, input.len()),
{
    reveal(weather);
    let i = eat_intensity(input, pos);
    let vc = eat_maybe(input, i.1, "VC");
    let d = eat_optional_descriptor(input, vc.1);
    let l = eat_precipitations(input, d.1);
    if l.0.len() > 0 {
        return Some(
            (
                Weather {
                    intensity: i.0,
                    vicinity: vc.0,
                    descriptor: d.0,
                    condition: Some(Condition::Precipitation(l.0)),
                },
                l.1,
            ),
        );
    }
    match eat_obscuration(input, d.1) {
        Some((o, e)) => Some(
            (
                Weather {
                    intensity: i.0,
                    vicinity: vc.0,
                    descriptor: d.0,
                    condition: Some(Condition::Obscuration(o)),
                },
                e,
            ),
        ),
        None => match eat_other(input, d.1) {
            Some((o, e)) => Some(
                (
                    Weather {
                        intensity: i.0,
                        vicinity: vc.0,
                        descriptor: d.0,
                        condition: Some(Condition::Other(o)),
                    },
                    e,
                ),
            ),
            None => if d.0.is_some() {
                Some(
                    (
                        Weather {
                            intensity: i.0,
                            vicinity: vc.0,
                            descriptor: d.0,
                            condition: None,
                        },
                        d.1,
                    ),
                )
            } else {
                None
            },
        },
    }
}

/// The groups read, where the last of them ends its token.
fn close_sequence(input: &[u8], acc: Vec<Weather>, cur: usize) -> (r: Option<
    (Vec<Weather>, usize),
>)
    requires
        cur <= input.len(),
    ensures
        r == if at_boundary(input@, cur as int) {
            Some((acc, cur))
        } else {
            None
        },
{
    if boundary_here(input, cur) {
        Some((acc, cur))
    } else {
        None
    }
}

/// Reads one or more weather groups at `pos`.
pub fn parse_weather_sequence(input: &[u8], pos: usize) -> (r: Option<(Vec<Weather>, usize)>)
    requires
        pos <= input.len(),
    ensures
        agrees_weathers(r, weather_sequence(input@, pos as int), pos, input.len()),
{
    reveal(weather_sequence);
    match parse_weather(input, pos) {
        None => None,
        Some((first, start)) => {
            let mut acc: Vec<Weather> = Vec::new();
            let ghost head = first@;
            proof {
                lemma_models_push(acc@, first);
                assert(weather_models(acc@).push(first@) =~= seq![first@]);
            }
            acc.push(first);
            let mut cur: usize = start;
            loop
                invariant
                    pos <= start <= cur <= input.len(),
                    weather(input@, pos as int) == Some((head, start as int)),
                    more_weather(input@, start as int, seq![head]) == more_weather(
                        input@,
                        cur as int,
                        weather_models(acc@),
                    ),
                decreases input.len() - cur,
            {
                match parse_weather(input, skip_whitespace(input, cur)) {
                    Some((w, p)) => {
                        if cur < p {
                            proof {
                                lemma_models_push(acc@, w);
                            }
                            acc.push(w);
                            cur = p;
                        } else {
                            proof {
                                reveal(weather_sequence);
                                reveal(recent_weather_sequence);
                            }
                            return close_sequence(input, acc, cur);
                        }
                    },
                    None => {
                        proof {
                            reveal(weather_sequence);
                            reveal(recent_weather_sequence);
                        }
                        return close_sequence(input, acc, cur);
                    },
                }
            }
        },
    }
}

/// What a parser of a recent weather group returned, held against the
/// grammar.
pub open spec fn agrees_recent(
    r: Option<(Option<Weather>, usize)>,
    m: Option<(Option<WeatherModel>, int)>,
    pos: usize,
    len: usize,
) -> bool {
    match r {
        Some((Some(w), p)) => m == Some((Some(w@), p as int)) && pos <= p <= len,
        Some((None, p)) => m == Some((None::<WeatherModel>, p as int)) && pos <= p <= len,
        None => m is None,
    }
}

fn eat_recent_weather(input: &[u8], pos: usize) -> (r: Option<(Option<Weather>, usize)>)
    requires
        pos <= input.len(),
    ensures
        agrees_recent(r, recent_weather(input@, pos as int), pos, input.len()),
{
    reveal(recent_weather);
    match eat(input, pos, "RE") {
        Some(p) => match parse_weather(input, p) {
            Some((w, e)) => if boundary_here(input, e) {
                return Some((Some(w), e));
            },
            None => {},
        },
        None => {},
    }
    match eat(input, pos, "RE//") {
        Some(e) => if boundary_here(input, e) {
            Some((None, e))
        } else {
            None
        },
        None => None,
    }
}

/// Reads one or more recent weather groups at `pos`.
pub fn parse_recent_weather_sequence(input: &[u8], pos: usize) -> (r: Option<
    (Vec<Weather>, usize),
>)
    requires
        pos <= input.len(),
    ensures
        agrees_weathers(r, recent_weather_sequence(input@, pos as int), pos, input.len()),
{
    reveal(recent_weather_sequence);
    match eat_recent_weather(input, pos) {
        None => None,
        Some((first, start)) => {
            let mut acc: Vec<Weather> = Vec::new();
            let ghost first_model = model_of(first);
            proof {
                assert(weather_models(acc@) =~= Seq::empty());
            }
            match first {
                Some(w) => {
                    proof {
                        lemma_models_push(acc@, w);
                    }
                    acc.push(w);
                },
                None => {},
            }
            let mut cur: usize = start;
            loop
                invariant
                    pos <= start <= cur <= input.len(),
                    recent_weather(input@, pos as int) == Some((first_model, start as int)),
                    more_recent_weather(
                        input@,
                        start as int,
                        with_group(Seq::empty(), first_model),
                    ) == more_recent_weather(input@, cur as int, weather_models(acc@)),
                decreases input.len() - cur,
            {
                match eat_recent_weather(input, skip_whitespace(input, cur)) {
                    Some((w, p)) => {
                        if cur < p {
                            match w {
                                Some(w) => {
                                    proof {
                                        lemma_models_push(acc@, w);
                                    }
                                    acc.push(w);
                                },
                                None => {},
                            }
                            cur = p;
                        } else {
                            proof {
                                reveal(weather_sequence);
                                reveal(recent_weather_sequence);
                            }
                            return close_sequence(input, acc, cur);
                        }
                    },
                    None => {
                        proof {
                            reveal(weather_sequence);
                            reveal(recent_weather_sequence);
                        }
                        return close_sequence(input, acc, cur);
                    },
                }
            }
        },
    }
}

} // verus!
