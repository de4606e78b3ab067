use chrono::Datelike;
use weather_reports::taf::builder::{TafBuilder, ValidDateTimes};
use weather_reports::taf::parser::parse_taf;
use weather_reports::error::{ErrorKind, Expected};
use weather_reports::utils::numbers::parse_u32;
use weather_reports::utils::times::{
    datetime_at, ddhhmm_to_datetime, parse_ddhhmm, read_clock, resolve, Clock, Date, DayTime,
    Timestamp,
};
use weather_reports::utils::visibility::VisibilityBuilder;
use weather_reports::utils::wind::WindBuilder;

fn at(year: i32, month: u32, day: u32, hour: u32, minute: u32) -> Timestamp {
    Timestamp { date: Date { year, month, day }, hour, minute, second: 0 }
}

fn clock_of(now: Date, tomorrow: Date, yesterday: Date) -> Clock {
    Clock {
        now: Timestamp { date: now, hour: 6, minute: 15, second: 30 },
        tomorrow: Some(tomorrow),
        yesterday: Some(yesterday),
    }
}

fn mid_october() -> Clock {
    clock_of(
        Date { year: 2026, month: 10, day: 12 },
        Date { year: 2026, month: 10, day: 13 },
        Date { year: 2026, month: 10, day: 11 },
    )
}

#[test]
fn numbers_are_read_as_std_reads_them() {
    for text in [
        "0", "7", "007", "240", "+5", "+", "", " 5", "5 ", "-5", "4294967295", "4294967296",
        "99999999999999999999999", "12a", "a12", "1_000", "++1", "+0", "１２",
    ] {
        assert_eq!(parse_u32(text), text.parse::<u32>().ok(), "{:?}", text);
    }
    assert_eq!(parse_u32("240"), Some(240));
    assert_eq!(parse_u32("4294967295"), Some(u32::MAX));
    assert_eq!(parse_u32("4294967296"), None);
}

#[test]
fn wind_builder_builds_what_was_set() {
    let mut b = WindBuilder::new();
    b.with_direction("240").with_speed("10").with_gust_speed(Some("25"));
    let w = b.build();
    assert!(!w.is_variable_direction);
    assert!(w.is_gusting);
    assert_eq!(w.direction, Some(240));
    assert_eq!(w.speed, Some(10));
    assert_eq!(w.gust_speed, Some(25));
}

#[test]
fn wind_builder_without_numbers() {
    let w = WindBuilder::new().build();
    assert!(!w.is_variable_direction);
    assert!(!w.is_gusting);
    assert_eq!(w.direction, None);
    assert_eq!(w.speed, None);
    assert_eq!(w.gust_speed, None);
    let mut b = WindBuilder::new();
    b.is_variable().with_direction("VRB").with_speed("03").with_gust_speed(None);
    let w = b.build();
    assert!(w.is_variable_direction);
    assert_eq!(w.direction, None);
    assert_eq!(w.speed, Some(3));
    assert!(!w.is_gusting);
}

#[test]
fn visibility_builder_builds_what_was_set() {
    let v = VisibilityBuilder::new().build();
    assert!(!v.is_unlimited && !v.is_unknown && !v.is_meters && !v.is_statute_miles);
    assert_eq!(v.distance, None);
    let mut b = VisibilityBuilder::new();
    b.is_meters().with_distance("4000");
    let v = b.build();
    assert!(v.is_meters);
    assert!(!v.is_statute_miles && !v.is_unlimited && !v.is_unknown);
    assert_eq!(v.distance, Some(4000));
    let mut b = VisibilityBuilder::new();
    b.is_statute_miles().is_unlimited().is_unknown().with_distance("P6");
    let v = b.build();
    assert!(v.is_statute_miles && v.is_unlimited && v.is_unknown);
    assert!(!v.is_meters);
    assert_eq!(v.distance, None);
}

#[test]
fn day_and_time_of_day() {
    assert_eq!(parse_ddhhmm(b"121851Z"), Some(DayTime { day: 12, hour: 18, minute: 51 }));
    assert_eq!(parse_ddhhmm(b"121851"), Some(DayTime { day: 12, hour: 18, minute: 51 }));
    assert_eq!(parse_ddhhmm(b"1218"), Some(DayTime { day: 12, hour: 18, minute: 0 }));
    assert_eq!(parse_ddhhmm(b"1218Z"), Some(DayTime { day: 12, hour: 18, minute: 0 }));
    assert_eq!(parse_ddhhmm(b"12185"), None);
    assert_eq!(parse_ddhhmm(b"1218511"), None);
    assert_eq!(parse_ddhhmm(b"121851ZZ"), None);
    assert_eq!(parse_ddhhmm(b"121"), None);
    assert_eq!(parse_ddhhmm(b""), None);
    assert_eq!(parse_ddhhmm(b"12185Z"), None);
    assert_eq!(parse_ddhhmm(b" 121851Z"), None);
}

#[test]
fn day_of_the_month_is_resolved_by_the_clock() {
    let clock = mid_october();
    assert_eq!(resolve(DayTime { day: 12, hour: 18, minute: 51 }, &clock), Some(at(2026, 10, 12, 18, 51)));
    assert_eq!(resolve(DayTime { day: 13, hour: 0, minute: 5 }, &clock), Some(at(2026, 10, 13, 0, 5)));
    assert_eq!(resolve(DayTime { day: 11, hour: 23, minute: 59 }, &clock), Some(at(2026, 10, 11, 23, 59)));
    assert_eq!(resolve(DayTime { day: 20, hour: 1, minute: 2 }, &clock), Some(at(2026, 10, 20, 1, 2)));
}

#[test]
fn days_around_the_turn_of_a_month() {
    let last = clock_of(
        Date { year: 2026, month: 12, day: 31 },
        Date { year: 2027, month: 1, day: 1 },
        Date { year: 2026, month: 12, day: 30 },
    );
    assert_eq!(resolve(DayTime { day: 1, hour: 6, minute: 0 }, &last), Some(at(2027, 1, 1, 6, 0)));
    assert_eq!(resolve(DayTime { day: 31, hour: 24, minute: 0 }, &last), Some(at(2027, 1, 1, 0, 0)));
    let first = clock_of(
        Date { year: 2024, month: 3, day: 1 },
        Date { year: 2024, month: 3, day: 2 },
        Date { year: 2024, month: 2, day: 29 },
    );
    assert_eq!(resolve(DayTime { day: 29, hour: 6, minute: 0 }, &first), Some(at(2024, 2, 29, 6, 0)));
    assert_eq!(resolve(DayTime { day: 29, hour: 24, minute: 10 }, &first), Some(at(2024, 3, 1, 0, 10)));
    let february = clock_of(
        Date { year: 2025, month: 2, day: 27 },
        Date { year: 2025, month: 2, day: 28 },
        Date { year: 2025, month: 2, day: 26 },
    );
    assert_eq!(resolve(DayTime { day: 28, hour: 24, minute: 0 }, &february), Some(at(2025, 3, 1, 0, 0)));
}

#[test]
fn times_that_no_calendar_has() {
    let november = clock_of(
        Date { year: 2026, month: 11, day: 12 },
        Date { year: 2026, month: 11, day: 13 },
        Date { year: 2026, month: 11, day: 11 },
    );
    assert_eq!(resolve(DayTime { day: 31, hour: 6, minute: 0 }, &november), None);
    assert_eq!(resolve(DayTime { day: 0, hour: 6, minute: 0 }, &november), None);
    assert_eq!(resolve(DayTime { day: 12, hour: 6, minute: 60 }, &november), None);
    assert_eq!(resolve(DayTime { day: 12, hour: 48, minute: 0 }, &november), None);
    assert_eq!(resolve(DayTime { day: 12, hour: 47, minute: 59 }, &november), Some(at(2026, 11, 13, 23, 59)));
    let february = clock_of(
        Date { year: 2025, month: 2, day: 12 },
        Date { year: 2025, month: 2, day: 13 },
        Date { year: 2025, month: 2, day: 11 },
    );
    assert_eq!(resolve(DayTime { day: 29, hour: 6, minute: 0 }, &february), None);
    assert_eq!(resolve(DayTime { day: 28, hour: 6, minute: 0 }, &february), Some(at(2025, 2, 28, 6, 0)));
}

#[test]
fn text_that_is_no_time_means_now() {
    let clock = mid_october();
    assert_eq!(datetime_at(b"soon", &clock), Some(clock.now));
    assert_eq!(datetime_at(b"121851Z", &clock), Some(at(2026, 10, 12, 18, 51)));
}

#[test]
fn the_clock_knows_the_days_around_today() {
    let clock = read_clock();
    let today = chrono::NaiveDate::from_ymd_opt(
        clock.now.date.year,
        clock.now.date.month,
        clock.now.date.day,
    )
    .unwrap();
    let next = today.succ_opt().unwrap();
    let last = today.pred_opt().unwrap();
    assert_eq!(
        clock.tomorrow,
        Some(Date { year: next.year(), month: next.month(), day: next.day() })
    );
    assert_eq!(
        clock.yesterday,
        Some(Date { year: last.year(), month: last.month(), day: last.day() })
    );
    assert_ne!(clock.tomorrow, Some(clock.now.date));
    assert_ne!(clock.yesterday, Some(clock.now.date));
    let now = chrono::Utc::now();
    assert!((now.year() - clock.now.date.year).abs() <= 1);
    assert!(clock.now.hour < 24 && clock.now.minute < 60 && clock.now.second < 60);
}

#[test]
fn a_time_of_today_is_resolved_against_the_present() {
    let clock = read_clock();
    let day = clock.now.date.day;
    let text = format!("{:02}1851Z", day);
    let r = ddhhmm_to_datetime(&text).unwrap();
    assert_eq!(r.minute, 51);
    assert_eq!(r.hour, 18);
    assert_eq!(r.date.day, day);
    assert_eq!(r.second, 0);
    assert!(ddhhmm_to_datetime("no time").is_some());
}

#[test]
fn forecast_is_built_against_a_clock() {
    let clock = mid_october();
    let mut b = TafBuilder::new("KSEA", "121200Z", "1212/1318");
    b.with_conditions("24010KT P6SM SCT050");
    let taf = b.build_at(&clock).unwrap();
    assert_eq!(taf.station, "KSEA");
    assert_eq!(taf.issue_time, at(2026, 10, 12, 12, 0));
    assert_eq!(
        taf.valid_times,
        ValidDateTimes { start: at(2026, 10, 12, 12, 0), end: at(2026, 10, 13, 18, 0) }
    );
    assert_eq!(taf.conditions.as_deref(), Some("24010KT P6SM SCT050"));
    let plain = TafBuilder::new("KSEA", "121200Z", "1212/1324").build_at(&clock).unwrap();
    assert_eq!(plain.conditions, None);
    assert_eq!(plain.valid_times.end, at(2026, 10, 14, 0, 0));
}

#[test]
fn forecast_that_cannot_be_built() {
    let clock = mid_october();
    assert!(TafBuilder::new("KSEA", "121200Z", "1212").build_at(&clock).is_none());
    assert!(TafBuilder::new("KSEA", "121260Z", "1212/1318").build_at(&clock).is_none());
    assert!(TafBuilder::new("KSEA", "121200Z", "0012/1318").build_at(&clock).is_none());
    assert!(TafBuilder::new("KSEA", "121200Z", "1212").build().is_none());
    let built = TafBuilder::new("KSEA", "now", "soon/later").build();
    assert_eq!(built.unwrap().station, "KSEA");
}

#[test]
fn times_that_do_not_hang_on_the_clock() {
    assert!(TafBuilder::new("KSEA", "121200Z", "1212/1318").build().is_some());
    assert!(TafBuilder::new("KSEA", "281200Z", "0100/2824").build().is_some());
    assert!(TafBuilder::new("KSEA", "321200Z", "1212/1318").build().is_none());
    assert!(TafBuilder::new("KSEA", "121200Z", "1212/1348").build().is_none());
    assert!(ddhhmm_to_datetime("0100").is_some());
    assert!(ddhhmm_to_datetime("282359Z").is_some());
    assert!(ddhhmm_to_datetime("284759Z").is_some());
    assert!(ddhhmm_to_datetime("320000Z").is_none());
    assert!(ddhhmm_to_datetime("000000Z").is_none());
    assert!(ddhhmm_to_datetime("121860Z").is_none());
    assert!(ddhhmm_to_datetime("124800Z").is_none());
    let late = ddhhmm_to_datetime("122430Z").unwrap();
    assert_eq!(late.hour, 0);
    assert_eq!(late.minute, 30);
    assert_eq!(late.date.day, 13);
}

#[test]
fn forecast_without_its_groups() {
    let e = parse_taf(b"TAF 121200Z").unwrap_err();
    assert_eq!(e.expected, Expected::IcaoIdentifier);
    assert_eq!(e.kind, ErrorKind::LexicalMismatch);
    assert_eq!(e.position, 4);
    let e = parse_taf(b"TAF KSEA 1212/1318").unwrap_err();
    assert_eq!(e.expected, Expected::IssueTime);
    assert_eq!(e.kind, ErrorKind::LexicalMismatch);
    assert_eq!(e.position, 9);
    let e = parse_taf(b"TAF KSEA 121200Z 1212").unwrap_err();
    assert_eq!(e.expected, Expected::ValidityWindow);
    assert_eq!(e.kind, ErrorKind::StructuralMismatch);
    assert_eq!(e.position, 17);
    let e = parse_taf(b"KSEA 1212").unwrap_err();
    assert_eq!(e.expected, Expected::IssueTime);
    assert_eq!(e.kind, ErrorKind::StructuralMismatch);
    let ok = parse_taf(b"KSEA 121200Z 1212/1318").unwrap();
    assert_eq!(ok.conditions.start, 22);
    assert_eq!(ok.conditions.end, 22);
}
