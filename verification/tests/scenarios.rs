use weather_reports::lexical::Span;
use weather_reports::error::{ErrorKind, Expected};
use weather_reports::metar::report::parse_metar;
use weather_reports::taf::parser::parse_taf;
use weather_reports::tokens::{
    Amount, Angle, AngleUnit, CloudCover, CloudCoverage, CloudType, Color, ColorState, Condition,
    Descriptor, Intensity, Length, LengthUnit, MetarReport, ObservationFlags, Obscuration,
    Precipitation, Pressure, PressureUnit, RawVisibility, Temperature, TemperatureUnit,
    Temperatures, Trend, TrendTime, TrendTimeType, Velocity, VelocityUnit, Visibility,
    VisibilityType, Weather, Wind, ZuluDateTime, ZuluTime,
};
use weather_reports::utils::times::{Clock, Date, DayTime, Timestamp};

fn degrees(value: u64) -> Angle {
    Angle { value, unit: AngleUnit::Degree }
}

fn knots(value: u64) -> Velocity {
    Velocity { value: Amount::Whole(value), unit: VelocityUnit::Knot }
}

fn celsius(value: i64) -> Temperature {
    Temperature { value, unit: TemperatureUnit::DegreeCelsius }
}

fn feet(value: u64) -> Length {
    Length { value: Amount::Whole(value), unit: LengthUnit::Foot }
}

fn text<'a>(span: Span, input: &'a str) -> &'a str {
    std::str::from_utf8(span.text(input.as_bytes())).unwrap()
}

fn parse(input: &str) -> MetarReport {
    parse_metar(input.as_bytes()).unwrap()
}

fn no_flags() -> ObservationFlags {
    ObservationFlags {
        auto: false,
        nil: false,
        cor: false,
        cca: false,
        ccb: false,
        ccc: false,
        rtd: false,
    }
}

#[test]
fn kjfk_routine_report() {
    let input = "METAR KJFK 121851Z 28016G24KT 10SM FEW060 SCT250 28/17 A2992 RMK AO2 SLP132";
    let r = parse(input);
    assert_eq!(text(r.identifier, input), "KJFK");
    assert_eq!(
        r.observation_time,
        Some(ZuluDateTime {
            day_of_month: 12,
            time: ZuluTime { hour: 18, minute: 51 },
            is_zulu: true
        })
    );
    assert_eq!(r.observation_flags, no_flags());
    assert_eq!(
        r.wind,
        Some(Wind {
            direction: Some(degrees(280)),
            speed: Some(knots(16)),
            peak_gust: Some(knots(24)),
            variance: None
        })
    );
    assert_eq!(
        r.visibility,
        Some(Visibility {
            prevailing: Some(RawVisibility {
                distance: Length { value: Amount::Whole(10), unit: LengthUnit::StatuteMile },
                out_of_range: None
            }),
            minimum_directional: None,
            maximum_directional: None
        })
    );
    assert_eq!(
        r.cloud_cover,
        vec![
            CloudCover { coverage: CloudCoverage::Few, base: Some(feet(6000)), cloud_type: None },
            CloudCover {
                coverage: CloudCoverage::Scattered,
                base: Some(feet(25000)),
                cloud_type: None
            },
        ]
    );
    assert_eq!(r.temperatures, Some(Temperatures { air: celsius(28), dewpoint: Some(celsius(17)) }));
    assert_eq!(
        r.pressure,
        Some(Pressure { value: Amount::Whole(2992), unit: PressureUnit::HundredthInchOfMercury })
    );
    let remark = text(r.remark.unwrap(), input);
    assert_eq!(remark, "RMK AO2 SLP132");
    assert!(remark.contains("AO2 SLP132"));
    assert!(!r.cavok);
    assert!(!r.maintenance_needed);
    assert!(r.weather.is_empty());
    assert!(r.trends.is_empty());
}

#[test]
fn egll_automatic_report() {
    let input = "METAR EGLL 121820Z AUTO 24008KT 9999 -RA BKN012 12/10 Q1008 NOSIG=";
    let r = parse(input);
    assert_eq!(text(r.identifier, input), "EGLL");
    assert_eq!(r.observation_flags, ObservationFlags { auto: true, ..no_flags() });
    assert_eq!(
        r.wind,
        Some(Wind {
            direction: Some(degrees(240)),
            speed: Some(knots(8)),
            peak_gust: None,
            variance: None
        })
    );
    assert_eq!(
        r.visibility.unwrap().prevailing,
        Some(RawVisibility {
            distance: Length { value: Amount::Whole(9999), unit: LengthUnit::Meter },
            out_of_range: None
        })
    );
    assert_eq!(
        r.weather,
        vec![Weather {
            intensity: Intensity::Light,
            vicinity: false,
            descriptor: None,
            condition: Some(Condition::Precipitation(vec![Precipitation::Rain]))
        }]
    );
    assert_eq!(
        r.cloud_cover,
        vec![CloudCover {
            coverage: CloudCoverage::Broken,
            base: Some(feet(1200)),
            cloud_type: None
        }]
    );
    assert_eq!(r.temperatures, Some(Temperatures { air: celsius(12), dewpoint: Some(celsius(10)) }));
    assert_eq!(
        r.pressure,
        Some(Pressure { value: Amount::Whole(1008), unit: PressureUnit::Hectopascal })
    );
    assert_eq!(r.trends, vec![Trend::NoSignificantChange]);
    assert_eq!(r.remark, None);
}

#[test]
fn zzzz_report_of_sentinels() {
    let input = "METAR ZZZZ 010000Z //////KT //// R09/0500 27/// Q//// BLACK RED BLU";
    let r = parse(input);
    assert_eq!(text(r.identifier, input), "ZZZZ");
    assert_eq!(r.wind, None);
    assert_eq!(r.visibility, None);
    assert_eq!(r.runway_visibilities.len(), 1);
    let rv = r.runway_visibilities[0];
    assert_eq!(text(rv.designator, input), "09");
    assert_eq!(
        rv.visibility,
        VisibilityType::Fixed(RawVisibility {
            distance: Length { value: Amount::Whole(500), unit: LengthUnit::Meter },
            out_of_range: None
        })
    );
    assert_eq!(rv.trend, None);
    assert_eq!(r.temperatures, Some(Temperatures { air: celsius(27), dewpoint: None }));
    assert_eq!(r.pressure, None);
    assert_eq!(
        r.color,
        Some(Color {
            is_black: true,
            current_color: ColorState::Red,
            next_color: Some(ColorState::Blue)
        })
    );
    assert!(r.weather.is_empty());
}

#[test]
fn lfpg_report_with_trend() {
    let input = "METAR LFPG 121830Z 27010KT 240V300 CAVOK 22/12 Q1015 BECMG 2000/2100 25015G25KT";
    let r = parse(input);
    assert_eq!(r.wind.unwrap().variance, Some((degrees(240), degrees(300))));
    assert_eq!(r.wind.unwrap().direction, Some(degrees(270)));
    assert!(r.cavok);
    assert_eq!(r.trends.len(), 1);
    match &r.trends[0] {
        Trend::Becoming(t) => {
            assert_eq!(
                t.time,
                Some(TrendTime {
                    time_type: TrendTimeType::From,
                    time: ZuluTime { hour: 20, minute: 0 }
                })
            );
            assert_eq!(
                t.wind,
                Some(Wind {
                    direction: Some(degrees(250)),
                    speed: Some(knots(15)),
                    peak_gust: Some(knots(25)),
                    variance: None
                })
            );
            assert_eq!(t.visibility, None);
            assert!(t.weather.is_empty());
            assert!(t.cloud_cover.is_empty());
        }
        other => panic!("not a becoming trend: {:?}", other),
    }
}

#[test]
fn kden_special_report() {
    let input =
        "SPECI KDEN 121855Z 36020G35KT 1/2SM +TSRA BR OVC005CB 05/04 A2985 RMK FRQ LTGICCG TS OVHD $";
    let r = parse(input);
    assert_eq!(text(r.identifier, input), "KDEN");
    assert_eq!(
        r.visibility.unwrap().prevailing,
        Some(RawVisibility {
            distance: Length {
                value: Amount::Mixed { whole: 0, numerator: 1, denominator: 2 },
                unit: LengthUnit::StatuteMile
            },
            out_of_range: None
        })
    );
    assert!(r.weather.contains(&Weather {
        intensity: Intensity::Heavy,
        vicinity: false,
        descriptor: Some(Descriptor::Thunderstorm),
        condition: Some(Condition::Precipitation(vec![Precipitation::Rain]))
    }));
    assert!(r.weather.contains(&Weather {
        intensity: Intensity::Moderate,
        vicinity: false,
        descriptor: None,
        condition: Some(Condition::Obscuration(Obscuration::Mist))
    }));
    assert_eq!(r.weather.len(), 2);
    assert_eq!(
        r.cloud_cover,
        vec![CloudCover {
            coverage: CloudCoverage::Overcast,
            base: Some(feet(500)),
            cloud_type: Some(CloudType::Cumulonimbus)
        }]
    );
    assert_eq!(r.temperatures, Some(Temperatures { air: celsius(5), dewpoint: Some(celsius(4)) }));
    assert!(r.maintenance_needed);
    assert_eq!(text(r.remark.unwrap(), input), "RMK FRQ LTGICCG TS OVHD ");
}

#[test]
fn ksea_forecast() {
    let input = "TAF KSEA 121200Z 1212/1318 24010KT P6SM SCT050 FM122000 25015KT P6SM BKN030";
    let r = parse_taf(input.as_bytes()).unwrap();
    assert_eq!(text(r.station, input), "KSEA");
    assert_eq!(r.issue_time, DayTime { day: 12, hour: 12, minute: 0 });
    assert_eq!(r.validity.start, DayTime { day: 12, hour: 12, minute: 0 });
    assert_eq!(r.validity.end, DayTime { day: 13, hour: 18, minute: 0 });
    assert_eq!(
        text(r.conditions, input),
        "24010KT P6SM SCT050 FM122000 25015KT P6SM BKN030"
    );
    let clock = Clock {
        now: Timestamp {
            date: Date { year: 2026, month: 10, day: 12 },
            hour: 11,
            minute: 58,
            second: 3,
        },
        tomorrow: Some(Date { year: 2026, month: 10, day: 13 }),
        yesterday: Some(Date { year: 2026, month: 10, day: 11 }),
    };
    let times = r.times(&clock).unwrap();
    assert_eq!(
        times.issue_time,
        Timestamp { date: Date { year: 2026, month: 10, day: 12 }, hour: 12, minute: 0, second: 0 }
    );
    assert_eq!(times.valid_times.start, times.issue_time);
    assert_eq!(
        times.valid_times.end,
        Timestamp { date: Date { year: 2026, month: 10, day: 13 }, hour: 18, minute: 0, second: 0 }
    );
}

#[test]
fn missing_identifier_is_an_error() {
    let e = parse_metar(b"METAR 121851Z 28016G24KT").unwrap_err();
    assert_eq!(e.kind, ErrorKind::LexicalMismatch);
    assert_eq!(e.position, 6);
    assert_eq!(e.expected, Expected::IcaoIdentifier);
    let e = parse_metar(b"METAR KJ").unwrap_err();
    assert_eq!(e.kind, ErrorKind::StructuralMismatch);
    assert_eq!(e.position, 6);
    let e = parse_metar(b"").unwrap_err();
    assert_eq!(e.kind, ErrorKind::StructuralMismatch);
    assert_eq!(e.position, 0);
}

#[test]
fn leftover_input_is_an_error() {
    let e = parse_metar(b"KJFK 121851Z ???").unwrap_err();
    assert_eq!(e.kind, ErrorKind::LexicalMismatch);
    assert_eq!(e.expected, Expected::EndOfInput);
    assert_eq!(e.position, 13);
}
