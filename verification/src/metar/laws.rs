//! What holds of every report: laws of the grammar, proved from the
//! definitions of its rules.

use crate::lexical::{
    after, has, lemma_digits_end_from, letter_at, letter_or_digit_at, run_end, whitespace,
    whole_number, SLASH,
};
use crate::metar::cloud::{cloud_cover, cloud_layers, more_cloud_cover, with_layer};
use crate::metar::groups::{
    accumulated_rainfall, pressure, pressure_unit, temperatures, water_conditions,
};
use crate::metar::report::{
    cavok_position, closing, concluded, groups, identifier_position, metar, observed, settled,
    supplemented,
};
use crate::metar::runway::{
    feet_or_meters, more_runway_reports, more_runway_visibilities, raw_runway_visibility,
    runway_report, runway_reports, runway_visibilities, runway_visibility, with_visibility,
};
use crate::metar::trend::{more_trends, trend, trends};
use crate::metar::visibility::{
    fraction_distance, mixed_distance, out_of_range, raw_visibility, unit_or_meter,
};
use crate::metar::weather::{
    more_recent_weather, more_weather, recent_weather, recent_weather_sequence, weather,
    weather_sequence, with_group,
};
use crate::metar::wind::{direction, peak_gust, speed, wind, windspeed_unit};
use crate::tokens::{
    CloudCover, LengthUnit, MetarReportModel, RunwayReport, RunwayVisibility, TemperatureUnit,
    TrendModel, WeatherModel,
};
use vstd::prelude::*;

verus! {

/// The identifier of an accepted report covers exactly four bytes, a letter
/// and three letters or digits, and they are the bytes at the place of the
/// identifier.
pub proof fn lemma_identifier_is_four_bytes(s: Seq<u8>)
    requires
        metar(s) is Some,
        s.len() <= usize::MAX,
    ensures
        metar(s).unwrap().identifier.start == identifier_position(s),
        metar(s).unwrap().identifier.end == identifier_position(s) + 4,
        identifier_position(s) + 4 <= s.len(),
        letter_at(s, identifier_position(s)),
        letter_or_digit_at(s, identifier_position(s) + 1),
        letter_or_digit_at(s, identifier_position(s) + 2),
        letter_or_digit_at(s, identifier_position(s) + 3),
        forall|i: int|
            identifier_position(s) <= i < identifier_position(s) + 4 ==> #[trigger] s[i] < 128,
{
    reveal(observed);
    reveal(settled);
    reveal(supplemented);
    reveal(concluded);
}

/// A report says `CAVOK` exactly where the word stands at its place, behind
/// the groups that come before it.
pub proof fn lemma_cavok_iff_written(s: Seq<u8>)
    requires
        groups(s) is Some,
    ensures
        groups(s).unwrap().0.cavok == has(s, cavok_position(s), "CAVOK"),
{
    reveal(settled);
    reveal(supplemented);
    reveal(concluded);
}

/// What may close a report adds nothing to it: an accepted report is the
/// report of its groups.
pub proof fn lemma_closing_adds_nothing(s: Seq<u8>)
    requires
        metar(s) is Some,
    ensures
        groups(s) is Some,
        metar(s).unwrap() == groups(s).unwrap().0,
{
}

/// Whatever follows the `=` that ends a message, behind whitespace and
/// slashes where there are any, is accepted.
pub proof fn lemma_end_of_message_accepts_the_rest(s: Seq<u8>, pos: int)
    requires
        has(s, whitespace(s, run_end(s, whitespace(s, pos), SLASH)), "="),
    ensures
        closing(s, pos) == s.len(),
{
}

/// Cloud layers found behind `pos` come behind those that were found
/// before.
pub proof fn lemma_more_cloud_cover_behind(s: Seq<u8>, pos: int, acc: Seq<CloudCover>)
    ensures
        more_cloud_cover(s, pos, acc).0 == acc + more_cloud_cover(s, pos, Seq::empty()).0,
        more_cloud_cover(s, pos, acc).1 == more_cloud_cover(s, pos, Seq::empty()).1,
    decreases s.len() - pos,
{
    match cloud_cover(s, whitespace(s, pos)) {
        Some((c, p)) => {
            if pos < p <= s.len() {
                lemma_more_cloud_cover_behind(s, p, with_layer(acc, c));
                lemma_more_cloud_cover_behind(s, p, with_layer(Seq::empty(), c));
                let rest = more_cloud_cover(s, p, Seq::empty()).0;
                assert(with_layer(acc, c) + rest =~= acc + (with_layer(Seq::empty(), c) + rest));
            } else {
                assert(acc =~= acc + Seq::<CloudCover>::empty());
            }
        },
        None => {
            assert(acc =~= acc + Seq::<CloudCover>::empty());
        },
    }
}

/// Cloud layers stand in the order of their groups: behind what was found
/// before comes the layer of the first group, then the layers of the groups
/// that follow it.
pub proof fn lemma_cloud_layers_in_order(s: Seq<u8>, pos: int, acc: Seq<CloudCover>)
    ensures
        cloud_layers(s, pos, acc).0 == acc + cloud_layers(s, pos, Seq::empty()).0,
        cloud_layers(s, pos, acc).1 == cloud_layers(s, pos, Seq::empty()).1,
        cloud_cover(s, pos) matches Some((c, p)) ==> cloud_layers(s, pos, Seq::empty()).0
            == with_layer(Seq::empty(), c) + more_cloud_cover(s, p, Seq::empty()).0,
{
    reveal(cloud_layers);
    match cloud_cover(s, pos) {
        Some((c, p)) => {
            lemma_more_cloud_cover_behind(s, p, with_layer(acc, c));
            lemma_more_cloud_cover_behind(s, p, with_layer(Seq::empty(), c));
            let rest = more_cloud_cover(s, p, Seq::empty()).0;
            assert(with_layer(acc, c) + rest =~= acc + (with_layer(Seq::empty(), c) + rest));
        },
        None => {
            assert(acc =~= acc + Seq::<CloudCover>::empty());
        },
    }
}

/// Runway visibilities found behind `pos` come behind those that were
/// found before.
pub proof fn lemma_more_runway_visibilities_behind(
    s: Seq<u8>,
    pos: int,
    acc: Seq<RunwayVisibility>,
)
    ensures
        more_runway_visibilities(s, pos, acc).0 == acc + more_runway_visibilities(
            s,
            pos,
            Seq::empty(),
        ).0,
        more_runway_visibilities(s, pos, acc).1 == more_runway_visibilities(
            s,
            pos,
            Seq::empty(),
        ).1,
    decreases s.len() - pos,
{
    match runway_visibility(s, whitespace(s, pos)) {
        Some((v, p)) => {
            if pos < p <= s.len() {
                lemma_more_runway_visibilities_behind(s, p, with_visibility(acc, v));
                lemma_more_runway_visibilities_behind(s, p, with_visibility(Seq::empty(), v));
                let rest = more_runway_visibilities(s, p, Seq::empty()).0;
                assert(with_visibility(acc, v) + rest =~= acc + (with_visibility(Seq::empty(), v)
                    + rest));
            } else {
                assert(acc =~= acc + Seq::<RunwayVisibility>::empty());
            }
        },
        None => {
            assert(acc =~= acc + Seq::<RunwayVisibility>::empty());
        },
    }
}

/// Runway visibilities stand in the order of their groups.
pub proof fn lemma_runway_visibilities_in_order(
    s: Seq<u8>,
    pos: int,
    acc: Seq<RunwayVisibility>,
)
    ensures
        runway_visibilities(s, pos, acc).0 == acc + runway_visibilities(s, pos, Seq::empty()).0,
        runway_visibilities(s, pos, acc).1 == runway_visibilities(s, pos, Seq::empty()).1,
        runway_visibility(s, pos) matches Some((v, p)) ==> runway_visibilities(
            s,
            pos,
            Seq::empty(),
        ).0 == with_visibility(Seq::empty(), v) + more_runway_visibilities(s, p, Seq::empty()).0,
{
    reveal(runway_visibilities);
    match runway_visibility(s, pos) {
        Some((v, p)) => {
            lemma_more_runway_visibilities_behind(s, p, with_visibility(acc, v));
            lemma_more_runway_visibilities_behind(s, p, with_visibility(Seq::empty(), v));
            let rest = more_runway_visibilities(s, p, Seq::empty()).0;
            assert(with_visibility(acc, v) + rest =~= acc + (with_visibility(Seq::empty(), v)
                + rest));
        },
        None => {
            assert(acc =~= acc + Seq::<RunwayVisibility>::empty());
        },
    }
}

/// Weather groups found behind `pos` come behind those that were found
/// before.
pub proof fn lemma_more_weather_behind(s: Seq<u8>, pos: int, acc: Seq<WeatherModel>)
    ensures
        more_weather(s, pos, acc).0 == acc + more_weather(s, pos, Seq::empty()).0,
        more_weather(s, pos, acc).1 == more_weather(s, pos, Seq::empty()).1,
    decreases s.len() - pos,
{
    match weather(s, whitespace(s, pos)) {
        Some((w, p)) => {
            if pos < p <= s.len() {
                lemma_more_weather_behind(s, p, acc.push(w));
                lemma_more_weather_behind(s, p, Seq::empty().push(w));
                let rest = more_weather(s, p, Seq::empty()).0;
                assert(acc.push(w) + rest =~= acc + (Seq::empty().push(w) + rest));
            } else {
                assert(acc =~= acc + Seq::<WeatherModel>::empty());
            }
        },
        None => {
            assert(acc =~= acc + Seq::<WeatherModel>::empty());
        },
    }
}

/// A weather sequence stands in the order of its groups: the first group,
/// then the groups that follow it.
pub proof fn lemma_weather_in_order(s: Seq<u8>, pos: int)
    requires
        weather_sequence(s, pos) is Some,
    ensures
        weather(s, pos) matches Some((w, p)) && weather_sequence(s, pos).unwrap().0 == seq![w]
            + more_weather(s, p, Seq::empty()).0,
{
    reveal(weather_sequence);
    match weather(s, pos) {
        Some((w, p)) => {
            lemma_more_weather_behind(s, p, seq![w]);
        },
        None => {},
    }
}

/// Recent weather groups found behind `pos` come behind those that were
/// found before.
pub proof fn lemma_more_recent_weather_behind(s: Seq<u8>, pos: int, acc: Seq<WeatherModel>)
    ensures
        more_recent_weather(s, pos, acc).0 == acc + more_recent_weather(s, pos, Seq::empty()).0,
        more_recent_weather(s, pos, acc).1 == more_recent_weather(s, pos, Seq::empty()).1,
    decreases s.len() - pos,
{
    match recent_weather(s, whitespace(s, pos)) {
        Some((w, p)) => {
            if pos < p <= s.len() {
                lemma_more_recent_weather_behind(s, p, with_group(acc, w));
                lemma_more_recent_weather_behind(s, p, with_group(Seq::empty(), w));
                let rest = more_recent_weather(s, p, Seq::empty()).0;
                assert(with_group(acc, w) + rest =~= acc + (with_group(Seq::empty(), w) + rest));
            } else {
                assert(acc =~= acc + Seq::<WeatherModel>::empty());
            }
        },
        None => {
            assert(acc =~= acc + Seq::<WeatherModel>::empty());
        },
    }
}

/// A recent weather sequence stands in the order of its groups: what the
/// first group reports, then what the groups that follow it report.
pub proof fn lemma_recent_weather_in_order(s: Seq<u8>, pos: int)
    requires
        recent_weather_sequence(s, pos) is Some,
    ensures
        recent_weather(s, pos) matches Some((w, p)) && recent_weather_sequence(
            s,
            pos,
        ).unwrap().0 == with_group(Seq::empty(), w) + more_recent_weather(s, p, Seq::empty()).0,
{
    reveal(recent_weather_sequence);
    match recent_weather(s, pos) {
        Some((w, p)) => {
            lemma_more_recent_weather_behind(s, p, with_group(Seq::empty(), w));
        },
        None => {},
    }
}

/// Runway states found behind `pos` come behind those that were found
/// before.
pub proof fn lemma_more_runway_reports_behind(s: Seq<u8>, pos: int, acc: Seq<RunwayReport>)
    ensures
        more_runway_reports(s, pos, acc).0 == acc + more_runway_reports(s, pos, Seq::empty()).0,
        more_runway_reports(s, pos, acc).1 == more_runway_reports(s, pos, Seq::empty()).1,
    decreases s.len() - pos,
{
    match runway_report(s, whitespace(s, pos)) {
        Some((v, p)) => {
            if pos < p <= s.len() {
                lemma_more_runway_reports_behind(s, p, acc.push(v));
                lemma_more_runway_reports_behind(s, p, Seq::empty().push(v));
                let rest = more_runway_reports(s, p, Seq::empty()).0;
                assert(acc.push(v) + rest =~= acc + (Seq::empty().push(v) + rest));
            } else {
                assert(acc =~= acc + Seq::<RunwayReport>::empty());
            }
        },
        None => {
            assert(acc =~= acc + Seq::<RunwayReport>::empty());
        },
    }
}

/// Runway states stand in the order of their groups: the first, then
/// those that follow it.
pub proof fn lemma_runway_reports_in_order(s: Seq<u8>, pos: int)
    ensures
        runway_report(s, pos) matches Some((v, p)) ==> runway_reports(s, pos).0 == seq![v]
            + more_runway_reports(s, p, Seq::empty()).0,
{
    reveal(runway_reports);
    match runway_report(s, pos) {
        Some((v, p)) => {
            lemma_more_runway_reports_behind(s, p, seq![v]);
        },
        None => {},
    }
}

/// Trends found behind `pos` come behind those that were found before.
pub proof fn lemma_more_trends_behind(s: Seq<u8>, pos: int, acc: Seq<TrendModel>)
    ensures
        more_trends(s, pos, acc).0 == acc + more_trends(s, pos, Seq::empty()).0,
        more_trends(s, pos, acc).1 == more_trends(s, pos, Seq::empty()).1,
    decreases s.len() - pos,
{
    match trend(s, whitespace(s, pos)) {
        Some((t, p)) => {
            if pos < p <= s.len() {
                lemma_more_trends_behind(s, p, acc.push(t));
                lemma_more_trends_behind(s, p, Seq::empty().push(t));
                let rest = more_trends(s, p, Seq::empty()).0;
                assert(acc.push(t) + rest =~= acc + (Seq::empty().push(t) + rest));
            } else {
                assert(acc =~= acc + Seq::<TrendModel>::empty());
            }
        },
        None => {
            assert(acc =~= acc + Seq::<TrendModel>::empty());
        },
    }
}

/// Trends stand in the order of their groups: the first trend, then the
/// trends that follow it.
pub proof fn lemma_trends_in_order(s: Seq<u8>, pos: int)
    ensures
        trend(s, pos) matches Some((t, p)) ==> trends(s, pos).0 == seq![t] + more_trends(
            s,
            p,
            Seq::empty(),
        ).0,
{
    reveal(trends);
    match trend(s, pos) {
        Some((t, p)) => {
            lemma_more_trends_behind(s, p, seq![t]);
        },
        None => {},
    }
}

/// Every sequence of `m` is the front of the same sequence of `n`.
pub open spec fn in_front(m: MetarReportModel, n: MetarReportModel) -> bool {
    &&& m.runway_visibilities.is_prefix_of(n.runway_visibilities)
    &&& m.weather.is_prefix_of(n.weather)
    &&& m.recent_weather.is_prefix_of(n.recent_weather)
    &&& m.cloud_cover.is_prefix_of(n.cloud_cover)
}

/// Groups that stand at more than one place are merged in the order of the
/// text: what a report holds of runway visibilities, weather, recent weather
/// and cloud layers when a run of groups begins is the front of what it holds
/// behind that run.
pub proof fn lemma_earlier_groups_stay_in_front(s: Seq<u8>, m: MetarReportModel, pos: int)
    ensures
        in_front(m, observed(s, m, pos).0),
        in_front(m, settled(s, m, pos).0),
        in_front(m, supplemented(s, m, pos).0),
        in_front(m, concluded(s, m, pos).0),
{
    reveal(observed);
    reveal(settled);
    reveal(supplemented);
    reveal(concluded);
    assert forall|p: int|
        m.cloud_cover.is_prefix_of(#[trigger] cloud_layers(s, p, m.cloud_cover).0) by {
        lemma_cloud_layers_in_order(s, p, m.cloud_cover);
    }
    assert forall|p: int|
        m.runway_visibilities.is_prefix_of(
            #[trigger] runway_visibilities(s, p, m.runway_visibilities).0,
        ) by {
        lemma_runway_visibilities_in_order(s, p, m.runway_visibilities);
    }
}

/// The speeds of a reported wind are in the unit that closes its group.
pub proof fn lemma_wind_speeds_in_the_unit_written(s: Seq<u8>, pos: int)
    requires
        wind(s, pos) matches Some((Some(_), _)),
    ensures
        ({
            let at = peak_gust(s, speed(s, direction(s, pos).1).1).1;
            let w = wind(s, pos).unwrap().0.unwrap();
            windspeed_unit(s, at) matches Some((unit, _)) && (w.speed matches Some(v) ==> v.unit
                == unit) && (w.peak_gust matches Some(g) ==> g.unit == unit)
        }),
{
    reveal(wind);
}

/// A reported pressure is in the unit that its keyword stands for.
pub proof fn lemma_pressure_in_the_unit_written(s: Seq<u8>, pos: int)
    requires
        pressure(s, pos) matches Some((Some(_), _)),
    ensures
        pressure_unit(s, pos) matches Some((unit, _)) && pressure(s, pos).unwrap().0.unwrap().unit
            == unit,
{
    reveal(pressure);
}

/// The distance of a visibility is in the unit that is written behind its
/// number, and in meters where none is.
pub proof fn lemma_visibility_in_the_unit_written(s: Seq<u8>, pos: int)
    requires
        raw_visibility(s, pos) is Some,
    ensures
        ({
            let v = raw_visibility(s, pos).unwrap();
            exists|e: int| #[trigger] unit_or_meter(s, e) == (v.0.distance.unit, v.1)
        }),
{
    let o = out_of_range(s, pos);
    let v = raw_visibility(s, pos).unwrap();
    let from = if mixed_distance(s, o.1, o.0) is Some {
        whitespace(s, whole_number(s, o.1).unwrap().1)
    } else {
        o.1
    };
    let e = if mixed_distance(s, o.1, o.0) is Some || fraction_distance(s, o.1, o.0) is Some {
        let n = whole_number(s, from).unwrap().1;
        whole_number(s, after(s, n, "/").unwrap()).unwrap().1
    } else {
        whole_number(s, o.1).unwrap().1
    };
    assert(unit_or_meter(s, e) == (v.0.distance.unit, v.1));
}

/// A runway distance is in feet where `FT` closes it, and in meters where
/// nothing does.
pub proof fn lemma_runway_distance_in_the_unit_written(s: Seq<u8>, pos: int)
    requires
        raw_runway_visibility(s, pos) is Some,
    ensures
        ({
            let v = raw_runway_visibility(s, pos).unwrap();
            let digits_from = out_of_range(s, pos).1;
            exists|e: int|
                digits_from < e && #[trigger] feet_or_meters(s, e) == (v.0.distance.unit, v.1)
        }),
{
    let digits_from = out_of_range(s, pos).1;
    let e = whole_number(s, digits_from).unwrap().1;
    lemma_digits_end_from(s, digits_from + 1);
    assert(feet_or_meters(s, e) == (
        raw_runway_visibility(s, pos).unwrap().0.distance.unit,
        raw_runway_visibility(s, pos).unwrap().1,
    ));
}

/// The height of a reported cloud base is in feet.
pub proof fn lemma_cloud_base_in_feet(s: Seq<u8>, pos: int)
    requires
        cloud_cover(s, pos) matches Some((Some(c), _)) && c.base is Some,
    ensures
        cloud_cover(s, pos).unwrap().0.unwrap().base.unwrap().unit == LengthUnit::Foot,
{
    reveal(cloud_cover);
}

/// Reported temperatures are in degrees Celsius.
pub proof fn lemma_temperatures_in_celsius(s: Seq<u8>, pos: int)
    requires
        temperatures(s, pos) matches Some((Some(_), _)),
    ensures
        ({
            let t = temperatures(s, pos).unwrap().0.unwrap();
            t.air.unit == TemperatureUnit::DegreeCelsius && (t.dewpoint matches Some(d) ==> d.unit
                == TemperatureUnit::DegreeCelsius)
        }),
{
    reveal(temperatures);
}

/// A reported water temperature is in degrees Celsius, a reported wave
/// height in decimeters.
pub proof fn lemma_water_in_celsius_and_decimeters(s: Seq<u8>, pos: int)
    requires
        water_conditions(s, pos) is Some,
    ensures
        ({
            let w = water_conditions(s, pos).unwrap().0;
            (w.temperature matches Some(t) ==> t.unit == TemperatureUnit::DegreeCelsius) && (
            w.significant_wave_height matches Some(h) ==> h.unit == LengthUnit::Decimeter)
        }),
{
    reveal(water_conditions);
}

/// Reported rainfall is in millimeters.
pub proof fn lemma_rainfall_in_millimeters(s: Seq<u8>, pos: int)
    requires
        accumulated_rainfall(s, pos) is Some,
    ensures
        accumulated_rainfall(s, pos).unwrap().0.recent.unit == LengthUnit::Millimeter,
        accumulated_rainfall(s, pos).unwrap().0.past.unit == LengthUnit::Millimeter,
{
    reveal(accumulated_rainfall);
}

} // verus!
