use weather_reports::lexical::Span;
use weather_reports::metar::cloud::parse_cloud_cover;
use weather_reports::metar::groups::{
    parse_accumulated_rainfall, parse_color, parse_observation_time, parse_pressure,
    parse_temperatures, parse_water_conditions,
};
use weather_reports::metar::report::parse_metar;
use weather_reports::metar::runway::{parse_runway_report, parse_runway_visibility};
use weather_reports::metar::trend::parse_trend;
use weather_reports::metar::visibility::{parse_raw_visibility, parse_visibility};
use weather_reports::metar::weather::{
    parse_recent_weather_sequence, parse_weather, parse_weather_sequence,
};
use weather_reports::metar::wind::parse_wind;
use weather_reports::tokens::{
    AccumulatedRainfall, Amount, Angle, AngleUnit, CloudCover, CloudCoverage, CloudType, Color,
    ColorState, CompassDirection, Condition, Descriptor, DirectionalVisibility, Intensity, Length,
    LengthUnit, Obscuration, Other, OutOfRange, Precipitation, Pressure, PressureUnit,
    RawVisibility, RunwayReport, RunwayReportInfo, RunwayVisibility, Temperature,
    TemperatureUnit, Temperatures, Trend, TrendTime, TrendTimeType, Velocity, VelocityUnit,
    Visibility, VisibilityTrend, VisibilityType, WaterConditions, WaterSurfaceState, Weather,
    ZuluDateTime, ZuluTime,
};

fn whole(value: u64, unit: LengthUnit) -> Length {
    Length { value: Amount::Whole(value), unit }
}

fn plain(value: u64, unit: LengthUnit) -> RawVisibility {
    RawVisibility { distance: whole(value, unit), out_of_range: None }
}

fn celsius(value: i64) -> Temperature {
    Temperature { value, unit: TemperatureUnit::DegreeCelsius }
}

fn rain(intensity: Intensity, descriptor: Option<Descriptor>, list: Vec<Precipitation>) -> Weather {
    Weather {
        intensity,
        vicinity: false,
        descriptor,
        condition: Some(Condition::Precipitation(list)),
    }
}

#[test]
fn wind_speed_in_each_unit() {
    let kmh = parse_wind(b"27015G25KMH", 0).unwrap().0.unwrap();
    assert_eq!(
        kmh.speed,
        Some(Velocity { value: Amount::Whole(15), unit: VelocityUnit::KilometerPerHour })
    );
    assert_eq!(
        kmh.peak_gust,
        Some(Velocity { value: Amount::Whole(25), unit: VelocityUnit::KilometerPerHour })
    );
    let kts = parse_wind(b"27015KTS", 0).unwrap();
    assert_eq!(kts.1, 8);
    assert_eq!(kts.0.unwrap().speed.unwrap().unit, VelocityUnit::Knot);
    let ktm = parse_wind(b"27015KTM", 0).unwrap();
    assert_eq!(ktm.1, 8);
    assert_eq!(ktm.0.unwrap().speed.unwrap().unit, VelocityUnit::Knot);
}

#[test]
fn wind_speed_above_and_decimal() {
    let above = parse_wind(b"240P49KT", 0).unwrap().0.unwrap();
    assert_eq!(above.speed, Some(Velocity { value: Amount::Whole(49), unit: VelocityUnit::Knot }));
    let decimal = parse_wind(b"2401.5MPS", 0).unwrap().0.unwrap();
    assert_eq!(
        decimal.speed,
        Some(Velocity {
            value: Amount::Decimal { whole: 1, fraction: 5, places: 1 },
            unit: VelocityUnit::MeterPerSecond
        })
    );
}

#[test]
fn wind_gust_not_reported() {
    let r = parse_wind(b"24010G//KT", 0).unwrap();
    assert_eq!(r.1, 10);
    let w = r.0.unwrap();
    assert_eq!(w.peak_gust, None);
    assert_eq!(w.speed, Some(Velocity { value: Amount::Whole(10), unit: VelocityUnit::Knot }));
}

#[test]
fn wind_variance_behind_whitespace() {
    let r = parse_wind(b"27010KT 240V300 CAVOK", 0).unwrap();
    assert_eq!(r.1, 15);
    assert_eq!(
        r.0.unwrap().variance,
        Some((
            Angle { value: 240, unit: AngleUnit::Degree },
            Angle { value: 300, unit: AngleUnit::Degree }
        ))
    );
    assert_eq!(parse_wind(b"KT", 0).unwrap().0.unwrap().speed, None);
    assert_eq!(parse_wind(b"27010", 0), None);
}

#[test]
fn visibility_that_reports_nothing() {
    assert_eq!(parse_visibility(b"NDV", 0), Some((None, 3)));
    assert_eq!(parse_visibility(b"9999NDV", 0), Some((None, 7)));
    assert_eq!(parse_visibility(b"////", 0), Some((None, 4)));
    assert_eq!(parse_visibility(b"////SM", 0), Some((None, 6)));
    assert_eq!(parse_visibility(b"////NDV", 0), Some((None, 7)));
    assert_eq!(parse_visibility(b"CAVOK", 0), None);
}

#[test]
fn visibility_whole_and_fraction() {
    let r = parse_raw_visibility(b"1 1/2SM", 0);
    assert_eq!(
        r,
        Some((
            RawVisibility {
                distance: Length {
                    value: Amount::Mixed { whole: 1, numerator: 1, denominator: 2 },
                    unit: LengthUnit::StatuteMile
                },
                out_of_range: None
            },
            7
        ))
    );
    let r = parse_raw_visibility(b"M1/4SM", 0);
    assert_eq!(
        r,
        Some((
            RawVisibility {
                distance: Length {
                    value: Amount::Mixed { whole: 0, numerator: 1, denominator: 4 },
                    unit: LengthUnit::StatuteMile
                },
                out_of_range: Some(OutOfRange::Below)
            },
            6
        ))
    );
    assert_eq!(parse_raw_visibility(b"10KM", 0), Some((plain(10, LengthUnit::Kilometer), 4)));
    assert_eq!(parse_raw_visibility(b"800M", 0), Some((plain(800, LengthUnit::Meter), 4)));
    assert_eq!(parse_raw_visibility(b"10 SM", 0), Some((plain(10, LengthUnit::StatuteMile), 5)));
}

#[test]
fn visibility_unit_needs_a_token_end() {
    assert_eq!(parse_raw_visibility(b"5SMOKE", 0), Some((plain(5, LengthUnit::Meter), 1)));
}

#[test]
fn visibility_with_directions() {
    let three = parse_visibility(b"4000 1200NE 6000S", 0).unwrap();
    assert_eq!(three.1, 17);
    assert_eq!(
        three.0,
        Some(Visibility {
            prevailing: Some(plain(4000, LengthUnit::Meter)),
            minimum_directional: Some(DirectionalVisibility {
                direction: CompassDirection::NorthEast,
                distance: plain(1200, LengthUnit::Meter)
            }),
            maximum_directional: Some(DirectionalVisibility {
                direction: CompassDirection::South,
                distance: plain(6000, LengthUnit::Meter)
            }),
        })
    );
    let two = parse_visibility(b"4000 1200NW", 0).unwrap();
    assert_eq!(two.1, 11);
    assert_eq!(two.0.unwrap().maximum_directional, None);
    assert_eq!(
        two.0.unwrap().minimum_directional.unwrap().direction,
        CompassDirection::NorthWest
    );
    let only = parse_visibility(b"1200E 3000W", 0).unwrap();
    assert_eq!(only.1, 11);
    assert_eq!(only.0.unwrap().prevailing, None);
    assert_eq!(only.0.unwrap().minimum_directional.unwrap().direction, CompassDirection::East);
    assert_eq!(only.0.unwrap().maximum_directional.unwrap().direction, CompassDirection::West);
    let one = parse_visibility(b"1200SW", 0).unwrap();
    assert_eq!(one.0.unwrap().minimum_directional.unwrap().direction, CompassDirection::SouthWest);
    assert_eq!(one.0.unwrap().maximum_directional, None);
}

#[test]
fn numbers_beyond_the_machine_saturate() {
    let r = parse_raw_visibility(b"99999999999999999999999", 0).unwrap();
    assert_eq!(r.0.distance.value, Amount::Whole(u64::MAX));
    assert_eq!(r.1, 23);
    let r = parse_raw_visibility(b"18446744073709551615", 0).unwrap();
    assert_eq!(r.0.distance.value, Amount::Whole(u64::MAX));
    let r = parse_raw_visibility(b"18446744073709551614", 0).unwrap();
    assert_eq!(r.0.distance.value, Amount::Whole(u64::MAX - 1));
}

#[test]
fn runway_visibility_that_varies() {
    let input = b"R27L/0800V1200FT/U";
    let r = parse_runway_visibility(input, 0).unwrap();
    assert_eq!(r.1, 18);
    let v = r.0.unwrap();
    assert_eq!(v.designator, Span { start: 1, end: 4 });
    assert_eq!(v.designator.text(input), b"27L");
    assert_eq!(
        v.visibility,
        VisibilityType::Varying {
            lower: plain(800, LengthUnit::Foot),
            upper: plain(1200, LengthUnit::Foot)
        }
    );
    assert_eq!(v.trend, Some(VisibilityTrend::Up));
}

#[test]
fn runway_visibility_that_is_fixed() {
    let r = parse_runway_visibility(b"R09/P2000N", 0).unwrap();
    assert_eq!(r.1, 10);
    assert_eq!(
        r.0,
        Some(RunwayVisibility {
            designator: Span { start: 1, end: 3 },
            visibility: VisibilityType::Fixed(RawVisibility {
                distance: whole(2000, LengthUnit::Meter),
                out_of_range: Some(OutOfRange::Above)
            }),
            trend: Some(VisibilityTrend::NoChange)
        })
    );
    let down = parse_runway_visibility(b"R09/M0050FTD", 0).unwrap().0.unwrap();
    assert_eq!(down.trend, Some(VisibilityTrend::Down));
    assert_eq!(
        down.visibility,
        VisibilityType::Fixed(RawVisibility {
            distance: whole(50, LengthUnit::Foot),
            out_of_range: Some(OutOfRange::Below)
        })
    );
}

#[test]
fn runway_visibility_of_slashes() {
    assert_eq!(parse_runway_visibility(b"R24//////", 0), Some((None, 9)));
    assert_eq!(parse_runway_visibility(b"R/////", 0), Some((None, 6)));
    assert_eq!(parse_runway_visibility(b"R24////", 0), None);
    assert_eq!(parse_runway_visibility(b"R24/CLRD70", 0), None);
}

#[test]
fn runway_state() {
    assert_eq!(
        parse_runway_report(b"R27/CLRD70", 0),
        Some((
            RunwayReport {
                designator: Span { start: 1, end: 3 },
                report_info: RunwayReportInfo::Cleared { friction: Some(70) }
            },
            10
        ))
    );
    assert_eq!(
        parse_runway_report(b"R27/CLRD//", 0).unwrap().0.report_info,
        RunwayReportInfo::Cleared { friction: None }
    );
    assert_eq!(parse_runway_report(b"R27/0800", 0), None);
}

#[test]
fn weather_of_combined_precipitation() {
    let r = parse_weather(b"SHRASN", 0).unwrap();
    assert_eq!(r.1, 6);
    assert_eq!(
        r.0,
        rain(
            Intensity::Moderate,
            Some(Descriptor::Showers),
            vec![Precipitation::Rain, Precipitation::Snow]
        )
    );
    let r = parse_weather(b"-FZDZ", 0).unwrap();
    assert_eq!(
        r.0,
        rain(Intensity::Light, Some(Descriptor::Freezing), vec![Precipitation::Drizzle])
    );
}

#[test]
fn weather_of_other_kinds() {
    let vicinity = parse_weather(b"VCSH", 0).unwrap();
    assert_eq!(
        vicinity.0,
        Weather {
            intensity: Intensity::Moderate,
            vicinity: true,
            descriptor: Some(Descriptor::Showers),
            condition: None
        }
    );
    let funnel = parse_weather(b"+FC", 0).unwrap();
    assert_eq!(
        funnel.0,
        Weather {
            intensity: Intensity::Heavy,
            vicinity: false,
            descriptor: None,
            condition: Some(Condition::Other(Other::FunnelCloud))
        }
    );
    let fog = parse_weather(b"BCFG", 0).unwrap();
    assert_eq!(
        fog.0,
        Weather {
            intensity: Intensity::Moderate,
            vicinity: false,
            descriptor: Some(Descriptor::Patches),
            condition: Some(Condition::Obscuration(Obscuration::Fog))
        }
    );
    assert_eq!(parse_weather(b"OVC010", 0), None);
}

#[test]
fn weather_sequence_keeps_the_order() {
    let r = parse_weather_sequence(b"-RA BR +SN Q1013", 0).unwrap();
    assert_eq!(r.1, 10);
    assert_eq!(r.0.len(), 3);
    assert_eq!(r.0[0], rain(Intensity::Light, None, vec![Precipitation::Rain]));
    assert_eq!(r.0[1].condition, Some(Condition::Obscuration(Obscuration::Mist)));
    assert_eq!(r.0[2], rain(Intensity::Heavy, None, vec![Precipitation::Snow]));
    assert_eq!(parse_weather_sequence(b"BLU", 0), None);
}

#[test]
fn recent_weather() {
    let r = parse_recent_weather_sequence(b"RERA RE// RESN", 0).unwrap();
    assert_eq!(r.1, 14);
    assert_eq!(
        r.0,
        vec![
            rain(Intensity::Moderate, None, vec![Precipitation::Rain]),
            rain(Intensity::Moderate, None, vec![Precipitation::Snow])
        ]
    );
    let none = parse_recent_weather_sequence(b"RE//", 0).unwrap();
    assert!(none.0.is_empty());
    assert_eq!(parse_recent_weather_sequence(b"RED", 0), None);
}

#[test]
fn cloud_cover_forms() {
    assert_eq!(parse_cloud_cover(b"//////CB", 0), Some((None, 8)));
    assert_eq!(
        parse_cloud_cover(b"BKN///", 0),
        Some((
            Some(CloudCover { coverage: CloudCoverage::Broken, base: None, cloud_type: None }),
            6
        ))
    );
    assert_eq!(
        parse_cloud_cover(b"BKN///CB", 0),
        Some((
            Some(CloudCover {
                coverage: CloudCoverage::Broken,
                base: None,
                cloud_type: Some(CloudType::Cumulonimbus)
            }),
            8
        ))
    );
    assert_eq!(
        parse_cloud_cover(b"FEW020//", 0),
        Some((
            Some(CloudCover {
                coverage: CloudCoverage::Few,
                base: Some(whole(2000, LengthUnit::Foot)),
                cloud_type: None
            }),
            8
        ))
    );
    assert_eq!(
        parse_cloud_cover(b"FEW020///", 0),
        Some((
            Some(CloudCover {
                coverage: CloudCoverage::Few,
                base: Some(whole(2000, LengthUnit::Foot)),
                cloud_type: None
            }),
            9
        ))
    );
    assert_eq!(
        parse_cloud_cover(b"SCT030TCU", 0),
        Some((
            Some(CloudCover {
                coverage: CloudCoverage::Scattered,
                base: Some(whole(3000, LengthUnit::Foot)),
                cloud_type: Some(CloudType::ToweringCumulus)
            }),
            9
        ))
    );
    assert_eq!(
        parse_cloud_cover(b"OVC0100", 0),
        Some((
            Some(CloudCover {
                coverage: CloudCoverage::Overcast,
                base: Some(whole(10000, LengthUnit::Foot)),
                cloud_type: None
            }),
            7
        ))
    );
    assert_eq!(
        parse_cloud_cover(b"NSC", 0),
        Some((
            Some(CloudCover {
                coverage: CloudCoverage::NoSignificantCloud,
                base: None,
                cloud_type: None
            }),
            3
        ))
    );
    assert_eq!(
        parse_cloud_cover(b"VV002", 0).unwrap().0.unwrap().coverage,
        CloudCoverage::VerticalVisibility
    );
    assert_eq!(parse_cloud_cover(b"FW010", 0).unwrap().0.unwrap().coverage, CloudCoverage::Few);
    assert_eq!(parse_cloud_cover(b"12/10", 0), None);
}

#[test]
fn temperatures_forms() {
    assert_eq!(parse_temperatures(b"XX/XX", 0), Some((None, 5)));
    assert_eq!(
        parse_temperatures(b"10/XX", 0),
        Some((Some(Temperatures { air: celsius(10), dewpoint: None }), 5))
    );
    assert_eq!(
        parse_temperatures(b"05/", 0),
        Some((Some(Temperatures { air: celsius(5), dewpoint: None }), 3))
    );
    assert_eq!(
        parse_temperatures(b"27///", 0),
        Some((Some(Temperatures { air: celsius(27), dewpoint: None }), 5))
    );
    assert_eq!(
        parse_temperatures(b"12.10", 0),
        Some((Some(Temperatures { air: celsius(12), dewpoint: Some(celsius(10)) }), 5))
    );
    assert_eq!(parse_temperatures(b"1/2SM", 0), None);
    assert_eq!(parse_temperatures(b"10/20KT", 0), None);
    assert_eq!(parse_temperatures(b"9999", 0), None);
}

#[test]
fn pressure_forms() {
    assert_eq!(
        parse_pressure(b"Q1013", 0),
        Some((Some(Pressure { value: Amount::Whole(1013), unit: PressureUnit::Hectopascal }), 5))
    );
    assert_eq!(
        parse_pressure(b"A2992", 0),
        Some((
            Some(Pressure {
                value: Amount::Whole(2992),
                unit: PressureUnit::HundredthInchOfMercury
            }),
            5
        ))
    );
    assert_eq!(
        parse_pressure(b"QNH1013", 0),
        Some((Some(Pressure { value: Amount::Whole(1013), unit: PressureUnit::Hectopascal }), 7))
    );
    assert_eq!(
        parse_pressure(b"QFE0998", 0),
        Some((Some(Pressure { value: Amount::Whole(998), unit: PressureUnit::Hectopascal }), 7))
    );
    assert_eq!(
        parse_pressure(b"Q 1013.2", 0),
        Some((
            Some(Pressure {
                value: Amount::Decimal { whole: 1013, fraction: 2, places: 1 },
                unit: PressureUnit::Hectopascal
            }),
            8
        ))
    );
    assert_eq!(parse_pressure(b"Q////", 0), Some((None, 5)));
    assert_eq!(parse_pressure(b"QNIL", 0), Some((None, 4)));
    assert_eq!(parse_pressure(b"Q", 0), None);
    assert_eq!(parse_pressure(b"1013", 0), None);
}

#[test]
fn rainfall_in_millimeters() {
    assert_eq!(
        parse_accumulated_rainfall(b"RF00.2/003.45", 0),
        Some((
            AccumulatedRainfall {
                recent: Length {
                    value: Amount::Decimal { whole: 0, fraction: 2, places: 1 },
                    unit: LengthUnit::Millimeter
                },
                past: Length {
                    value: Amount::Decimal { whole: 3, fraction: 45, places: 2 },
                    unit: LengthUnit::Millimeter
                },
            },
            13
        ))
    );
    assert_eq!(parse_accumulated_rainfall(b"RF00/003.4", 0), None);
}

#[test]
fn colour_states() {
    assert_eq!(
        parse_color(b"BLU+", 0),
        Some((
            Color { is_black: false, current_color: ColorState::BluePlus, next_color: None },
            4
        ))
    );
    assert_eq!(
        parse_color(b"BLACKGRN", 0),
        Some((Color { is_black: true, current_color: ColorState::Green, next_color: None }, 8))
    );
    assert_eq!(
        parse_color(b"YLO1 AMB", 0),
        Some((
            Color {
                is_black: false,
                current_color: ColorState::Yellow1,
                next_color: Some(ColorState::Amber)
            },
            8
        ))
    );
    assert_eq!(
        parse_color(b"WHT YLO2 YLO", 0).unwrap().0.next_color,
        Some(ColorState::Yellow2)
    );
    assert_eq!(parse_color(b"REDX", 0), None);
}

#[test]
fn water_conditions() {
    assert_eq!(
        parse_water_conditions(b"W15/S3", 0),
        Some((
            WaterConditions {
                temperature: Some(celsius(15)),
                surface_state: Some(WaterSurfaceState::Slight),
                significant_wave_height: None
            },
            6
        ))
    );
    assert_eq!(
        parse_water_conditions(b"W///S/", 0),
        Some((
            WaterConditions {
                temperature: None,
                surface_state: None,
                significant_wave_height: None
            },
            6
        ))
    );
    assert_eq!(
        parse_water_conditions(b"W12/H15", 0),
        Some((
            WaterConditions {
                temperature: Some(celsius(12)),
                surface_state: None,
                significant_wave_height: Some(whole(15, LengthUnit::Decimeter))
            },
            7
        ))
    );
    assert_eq!(
        parse_water_conditions(b"W12/H///", 0).unwrap().0.significant_wave_height,
        None
    );
    assert_eq!(
        parse_water_conditions(b"W12/S9", 0).unwrap().0.surface_state,
        Some(WaterSurfaceState::Phenomenal)
    );
    assert_eq!(
        parse_water_conditions(b"W12/S0", 0).unwrap().0.surface_state,
        Some(WaterSurfaceState::Glassy)
    );
    assert_eq!(parse_water_conditions(b"W12/X", 0), None);
}

#[test]
fn observation_time_without_z() {
    assert_eq!(
        parse_observation_time(b"121851", 0),
        Some((
            ZuluDateTime {
                day_of_month: 12,
                time: ZuluTime { hour: 18, minute: 51 },
                is_zulu: false
            },
            6
        ))
    );
    assert_eq!(parse_observation_time(b"12185", 0), None);
}

#[test]
fn trends_of_each_kind() {
    for text in ["NOSIG", "NOISIG", "N0SIG", "NOS16", "NOSING", "NOSG", "NSG"] {
        let r = parse_trend(text.as_bytes(), 0).unwrap();
        assert_eq!(r.0, Trend::NoSignificantChange);
    }
    let r = parse_trend(b"TEMPO FM1200 3000 -SHRA NSW BKN015 AMB", 0).unwrap();
    assert_eq!(r.1, 38);
    match r.0 {
        Trend::Temporarily(t) => {
            assert_eq!(
                t.time,
                Some(TrendTime {
                    time_type: TrendTimeType::From,
                    time: ZuluTime { hour: 12, minute: 0 }
                })
            );
            assert_eq!(t.wind, None);
            assert_eq!(t.visibility.unwrap().prevailing, Some(plain(3000, LengthUnit::Meter)));
            assert_eq!(
                t.weather,
                vec![rain(Intensity::Light, Some(Descriptor::Showers), vec![Precipitation::Rain])]
            );
            assert_eq!(
                t.cloud_cover,
                vec![CloudCover {
                    coverage: CloudCoverage::Broken,
                    base: Some(whole(1500, LengthUnit::Foot)),
                    cloud_type: None
                }]
            );
            assert_eq!(t.color_state, Some(ColorState::Amber));
        }
        other => panic!("not a temporary trend: {:?}", other),
    }
    let at = parse_trend(b"BECMG AT1530", 0).unwrap();
    match at.0 {
        Trend::Becoming(t) => assert_eq!(t.time.unwrap().time_type, TrendTimeType::At),
        other => panic!("not a becoming trend: {:?}", other),
    }
    let until = parse_trend(b"BECMG TL1530", 0).unwrap();
    match until.0 {
        Trend::Becoming(t) => assert_eq!(t.time.unwrap().time_type, TrendTimeType::Until),
        other => panic!("not a becoming trend: {:?}", other),
    }
    assert_eq!(parse_trend(b"RMK", 0), None);
}

#[test]
fn sequences_keep_the_order_of_the_text() {
    let input = "KJFK 121851Z 24008KT 9999 R09/0500 R27/0800 -RA FEW010 SCT020 Q1013 SN BKN030 RERA OVC040 R36/1000";
    let r = parse_metar(input.as_bytes()).unwrap();
    let runways: Vec<&[u8]> =
        r.runway_visibilities.iter().map(|v| v.designator.text(input.as_bytes())).collect();
    assert_eq!(runways, vec![&b"09"[..], &b"27"[..], &b"36"[..]]);
    let coverages: Vec<CloudCoverage> = r.cloud_cover.iter().map(|c| c.coverage).collect();
    assert_eq!(
        coverages,
        vec![
            CloudCoverage::Few,
            CloudCoverage::Scattered,
            CloudCoverage::Broken,
            CloudCoverage::Overcast
        ]
    );
    assert_eq!(
        r.weather,
        vec![
            rain(Intensity::Light, None, vec![Precipitation::Rain]),
            rain(Intensity::Moderate, None, vec![Precipitation::Snow])
        ]
    );
    assert_eq!(r.recent_weather, vec![rain(Intensity::Moderate, None, vec![Precipitation::Rain])]);
}

#[test]
fn first_temperatures_win() {
    let r = parse_metar(b"KJFK 121851Z 24008KT 10/05 9999 12/07 Q1013 14/09").unwrap();
    assert_eq!(
        r.temperatures,
        Some(Temperatures { air: celsius(10), dewpoint: Some(celsius(5)) })
    );
    let r = parse_metar(b"KJFK 121851Z 24008KT 9999 Q1013 14/09").unwrap();
    assert_eq!(
        r.temperatures,
        Some(Temperatures { air: celsius(14), dewpoint: Some(celsius(9)) })
    );
}

#[test]
fn cavok_only_where_it_is_written() {
    assert!(parse_metar(b"KJFK 121851Z 24008KT CAVOK 12/07 Q1013").unwrap().cavok);
    assert!(!parse_metar(b"KJFK 121851Z 24008KT 9999 12/07 Q1013").unwrap().cavok);
    assert!(!parse_metar(b"KJFK 121851Z 24008KT 12/07 Q1013 RMK CAVOK").unwrap().cavok);
}

#[test]
fn trailing_garbage_changes_nothing() {
    let plain = parse_metar(b"KJFK 121851Z 24008KT 9999 FEW020 12/07 A2992").unwrap();
    for text in [
        "KJFK 121851Z 24008KT 9999 FEW020 12/07 A2992 ///",
        "KJFK 121851Z 24008KT 9999 FEW020 12/07 A2992////",
        "KJFK 121851Z 24008KT 9999 FEW020 12/07 A2992=",
        "KJFK 121851Z 24008KT 9999 FEW020 12/07 A2992 = and more",
        "KJFK 121851Z 24008KT 9999 FEW020 12/07 A2992 >",
        "KJFK 121851Z 24008KT 9999 FEW020 12/07 A2992 Q1013",
        "KJFK 121851Z 24008KT 9999 FEW020 12/07 A2992 Q1013 QFE1010",
        "KJFK 121851Z 24008KT 9999 FEW020 12/07 A2992 \r\n",
        "KJFK 121851Z 24008KT 9999 FEW020 12/07 A2992\t",
    ] {
        assert_eq!(parse_metar(text.as_bytes()).unwrap(), plain, "{}", text);
    }
}

#[test]
fn garbage_between_groups_is_whitespace() {
    let plain = parse_metar(b"KJFK 121851Z 24008KT 9999 FEW020 12/07 A2992").unwrap();
    let noisy =
        parse_metar(b"  METAR KJFK 121851Z METAR / // 24008KT M M 9999\r\nFEW020\n12/07 A2992")
            .unwrap();
    assert_eq!(noisy.wind, plain.wind);
    assert_eq!(noisy.visibility, plain.visibility);
    assert_eq!(noisy.cloud_cover, plain.cloud_cover);
    assert_eq!(noisy.temperatures, plain.temperatures);
    assert_eq!(noisy.pressure, plain.pressure);
    assert_eq!(noisy.identifier.text(b"  METAR KJFK"), b"KJFK");
}

#[test]
fn remark_runs_to_the_maintenance_mark() {
    let input = b"KJFK 121851Z REMARK ALL FINE $ //";
    let r = parse_metar(input).unwrap();
    assert_eq!(r.remark.unwrap().text(input), b"REMARK ALL FINE ");
    assert!(r.maintenance_needed);
    let input = b"KJFK 121851Z :RMK X";
    assert_eq!(parse_metar(input).unwrap().remark.unwrap().text(input), b":RMK X");
    let input = b"KJFK 121851Z R MK X";
    assert_eq!(parse_metar(input).unwrap().remark.unwrap().text(input), b"R MK X");
    let input = b"KJFK 121851Z $";
    let r = parse_metar(input).unwrap();
    assert_eq!(r.remark, None);
    assert!(r.maintenance_needed);
}
