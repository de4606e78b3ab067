use weather_reports::metar::groups::parse_temperatures;
use weather_reports::metar::report::parse_metar;
use weather_reports::metar::visibility::parse_visibility;
use weather_reports::metar::wind::parse_wind;
use weather_reports::tokens::{
    Amount, Angle, AngleUnit, Length, LengthUnit, ObservationFlags, OutOfRange, RawVisibility,
    Temperature, TemperatureUnit, Temperatures, Velocity, VelocityUnit, Visibility, Wind,
};
use weather_reports::utils::times::{
    datetime_at, resolve, resolve_observation, Clock, Date, DayTime, Timestamp,
};

fn october_clock() -> Clock {
    Clock {
        now: Timestamp {
            date: Date { year: 2026, month: 10, day: 31 },
            hour: 9,
            minute: 30,
            second: 7,
        },
        tomorrow: Some(Date { year: 2026, month: 11, day: 1 }),
        yesterday: Some(Date { year: 2026, month: 10, day: 30 }),
    }
}

#[test]
fn empty_flags_are_not_nil() {
    let plain = parse_metar(b"KJFK 121851Z").unwrap();
    let nil = parse_metar(b"KJFK 121851Z NIL").unwrap();
    let none = ObservationFlags {
        auto: false,
        nil: false,
        cor: false,
        cca: false,
        ccb: false,
        ccc: false,
        rtd: false,
    };
    assert_eq!(plain.observation_flags, none);
    assert_eq!(nil.observation_flags, ObservationFlags { nil: true, ..none });
    assert_ne!(plain.observation_flags, nil.observation_flags);
}

#[test]
fn flags_count_before_and_behind_the_identifier() {
    let r = parse_metar(b"METAR COR KJFK 121851Z AUTO").unwrap();
    assert!(r.observation_flags.cor);
    assert!(r.observation_flags.auto);
    assert!(!r.observation_flags.nil);
    let twice = parse_metar(b"METAR AUTO KJFK 121851Z AUTO AUTO").unwrap();
    assert!(twice.observation_flags.auto);
    assert!(!twice.observation_flags.cor);
}

#[test]
fn variable_calm_wind() {
    let r = parse_wind(b"VRB00KT", 0);
    assert_eq!(
        r,
        Some((
            Some(Wind {
                direction: None,
                speed: Some(Velocity { value: Amount::Whole(0), unit: VelocityUnit::Knot }),
                peak_gust: None,
                variance: None
            }),
            7
        ))
    );
}

#[test]
fn all_slash_wind_is_absent() {
    assert_eq!(parse_wind(b"//////KT", 0), Some((None, 8)));
    assert_eq!(parse_wind(b"/////KT", 0), Some((None, 7)));
    assert_eq!(parse_wind(b"/////MPS", 0), Some((None, 8)));
    assert_eq!(parse_wind(b"////KT", 0), None);
}

#[test]
fn visibility_above_six_statute_miles() {
    let r = parse_visibility(b"P6SM", 0);
    assert_eq!(
        r,
        Some((
            Some(Visibility {
                prevailing: Some(RawVisibility {
                    distance: Length { value: Amount::Whole(6), unit: LengthUnit::StatuteMile },
                    out_of_range: Some(OutOfRange::Above)
                }),
                minimum_directional: None,
                maximum_directional: None
            }),
            4
        ))
    );
}

#[test]
fn temperatures_below_zero() {
    let r = parse_temperatures(b"M06/M08", 0);
    assert_eq!(
        r,
        Some((
            Some(Temperatures {
                air: Temperature { value: -6, unit: TemperatureUnit::DegreeCelsius },
                dewpoint: Some(Temperature { value: -8, unit: TemperatureUnit::DegreeCelsius })
            }),
            7
        ))
    );
    let dash = parse_temperatures(b"-5/-7", 0);
    assert_eq!(
        dash,
        Some((
            Some(Temperatures {
                air: Temperature { value: -5, unit: TemperatureUnit::DegreeCelsius },
                dewpoint: Some(Temperature { value: -7, unit: TemperatureUnit::DegreeCelsius })
            }),
            5
        ))
    );
}

#[test]
fn hour_24_is_midnight_of_the_next_day() {
    let clock = october_clock();
    let r = resolve(DayTime { day: 31, hour: 24, minute: 0 }, &clock);
    assert_eq!(
        r,
        Some(Timestamp {
            date: Date { year: 2026, month: 11, day: 1 },
            hour: 0,
            minute: 0,
            second: 0
        })
    );
    let r = datetime_at(b"302400Z", &clock);
    assert_eq!(
        r,
        Some(Timestamp {
            date: Date { year: 2026, month: 10, day: 31 },
            hour: 0,
            minute: 0,
            second: 0
        })
    );
    let r = datetime_at(b"302530", &clock);
    assert_eq!(
        r,
        Some(Timestamp {
            date: Date { year: 2026, month: 10, day: 31 },
            hour: 1,
            minute: 30,
            second: 0
        })
    );
}

#[test]
fn observation_at_hour_24_is_midnight_of_the_next_day() {
    let clock = october_clock();
    let r = parse_metar(b"METAR KJFK 312400Z 24008KT").unwrap();
    let time = r.observation_time.unwrap();
    assert_eq!(time.day_of_month, 31);
    assert_eq!(time.time.hour, 24);
    assert_eq!(
        resolve_observation(&time, &clock),
        Some(Timestamp {
            date: Date { year: 2026, month: 11, day: 1 },
            hour: 0,
            minute: 0,
            second: 0
        })
    );
    let r = parse_metar(b"METAR KJFK 301851Z 24008KT").unwrap();
    assert_eq!(
        resolve_observation(&r.observation_time.unwrap(), &clock),
        Some(Timestamp {
            date: Date { year: 2026, month: 10, day: 30 },
            hour: 18,
            minute: 51,
            second: 0
        })
    );
}

#[test]
fn five_digits_are_no_day_and_time() {
    let clock = october_clock();
    assert_eq!(datetime_at(b"24000Z", &clock), Some(clock.now));
}

#[test]
fn wind_direction_is_in_degrees() {
    let r = parse_wind(b"09012MPS", 0).unwrap().0.unwrap();
    assert_eq!(r.direction, Some(Angle { value: 90, unit: AngleUnit::Degree }));
    assert_eq!(
        r.speed,
        Some(Velocity { value: Amount::Whole(12), unit: VelocityUnit::MeterPerSecond })
    );
}
