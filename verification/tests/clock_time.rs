use badge_core::clock::{
    check_trust_time, get_time, leap_year, month_length, parse_timestamp, store_reading, update_delay,
    ClockStep, DateTime,
};

fn moment(year: i32, month: u8, day: u8, hour: u8, minute: u8, second: u8) -> DateTime {
    DateTime { year, month, day, hour, minute, second }
}

#[test]
fn new_accepts_moments_that_exist() {
    assert_eq!(DateTime::new(2026, 3, 1, 13, 5, 9), Some(moment(2026, 3, 1, 13, 5, 9)));
    assert_eq!(DateTime::new(2024, 2, 29, 0, 0, 0), Some(moment(2024, 2, 29, 0, 0, 0)));
    assert_eq!(DateTime::new(2000, 2, 29, 23, 59, 59), Some(moment(2000, 2, 29, 23, 59, 59)));
    assert_eq!(DateTime::new(-9999, 1, 1, 0, 0, 0), Some(moment(-9999, 1, 1, 0, 0, 0)));
    assert_eq!(DateTime::new(9999, 12, 31, 23, 59, 59), Some(moment(9999, 12, 31, 23, 59, 59)));
}

#[test]
fn new_refuses_moments_that_do_not_exist() {
    assert_eq!(DateTime::new(2026, 2, 29, 0, 0, 0), None);
    assert_eq!(DateTime::new(1900, 2, 29, 0, 0, 0), None);
    assert_eq!(DateTime::new(2026, 4, 31, 0, 0, 0), None);
    assert_eq!(DateTime::new(2026, 0, 1, 0, 0, 0), None);
    assert_eq!(DateTime::new(2026, 13, 1, 0, 0, 0), None);
    assert_eq!(DateTime::new(2026, 1, 0, 0, 0, 0), None);
    assert_eq!(DateTime::new(2026, 1, 32, 0, 0, 0), None);
    assert_eq!(DateTime::new(2026, 1, 1, 24, 0, 0), None);
    assert_eq!(DateTime::new(2026, 1, 1, 0, 60, 0), None);
    assert_eq!(DateTime::new(2026, 1, 1, 0, 0, 60), None);
    assert_eq!(DateTime::new(10000, 1, 1, 0, 0, 0), None);
    assert_eq!(DateTime::new(-10000, 1, 1, 0, 0, 0), None);
}

#[test]
fn month_lengths_follow_the_calendar() {
    let lengths = [31, 28, 31, 30, 31, 30, 31, 31, 30, 31, 30, 31];
    for month in 1..=12u8 {
        assert_eq!(month_length(2026, month), lengths[month as usize - 1]);
    }
    assert_eq!(month_length(2024, 2), 29);
    assert_eq!(month_length(2000, 2), 29);
    assert_eq!(month_length(1900, 2), 28);
    assert_eq!(month_length(2100, 2), 28);
    assert_eq!(month_length(-4, 2), 29);
    assert_eq!(month_length(2026, 0), 0);
    assert_eq!(month_length(2026, 13), 0);
}

#[test]
fn month_lengths_agree_with_the_time_crate() {
    for year in [-9999, -400, -100, -4, -1, 0, 1, 4, 100, 400, 1900, 2000, 2024, 2026, 9999] {
        for month in 1..=12u8 {
            let of_time = time::Month::try_from(month).unwrap().length(year);
            assert_eq!(month_length(year, month), of_time);
        }
    }
}

#[test]
fn timestamp_with_fraction_or_without() {
    let expected = Some(moment(2026, 3, 1, 13, 5, 9));
    assert_eq!(parse_timestamp(b"2026-03-01T13:05:09.123"), expected);
    assert_eq!(parse_timestamp(b"2026-03-01T13:05:09"), expected);
    assert_eq!(parse_timestamp(b"2026-03-01T13:05:09.123456+01:00"), expected);
    assert_eq!(parse_timestamp(b"2026-03-01T13:05:09:anything"), expected);
    assert_eq!(parse_timestamp(b"2026-3-1T13:5:9"), expected);
    assert_eq!(parse_timestamp(b"02026-003-01T013:05:0009."), expected);
}

#[test]
fn timestamp_at_the_edges_of_the_calendar() {
    assert_eq!(parse_timestamp(b"0-1-1T0:0:0"), Some(moment(0, 1, 1, 0, 0, 0)));
    assert_eq!(
        parse_timestamp(b"9999-12-31T23:59:59"),
        Some(moment(9999, 12, 31, 23, 59, 59))
    );
    assert_eq!(parse_timestamp(b"2024-02-29T00:00:00"), Some(moment(2024, 2, 29, 0, 0, 0)));
    assert_eq!(parse_timestamp(b"2026-02-29T00:00:00"), None);
    assert_eq!(parse_timestamp(b"10000-01-01T00:00:00"), None);
    assert_eq!(parse_timestamp(b"2026-13-01T00:00:00"), None);
    assert_eq!(parse_timestamp(b"2026-00-01T00:00:00"), None);
    assert_eq!(parse_timestamp(b"2026-01-32T00:00:00"), None);
    assert_eq!(parse_timestamp(b"2026-01-00T00:00:00"), None);
    assert_eq!(parse_timestamp(b"2026-01-01T24:00:00"), None);
    assert_eq!(parse_timestamp(b"2026-01-01T00:60:00"), None);
    assert_eq!(parse_timestamp(b"2026-01-01T00:00:60"), None);
}

#[test]
fn text_that_is_no_timestamp() {
    let broken: [&[u8]; 22] = [
        b"",
        b"T",
        b"2026-03-01",
        b"13:05:09",
        b"2026-03-01 13:05:09",
        b"2026-03-01t13:05:09",
        b"2026-03T13:05:09",
        b"2026-03-01-02T13:05:09",
        b"2026-03-01T13:05",
        b"2026-03-01T13",
        b"2026-03-01T",
        b"-03-01T13:05:09",
        b"2026--01T13:05:09",
        b"2026-03-T13:05:09",
        b"2026-03-01T:05:09",
        b"2026-03-01T13::09",
        b"2026-03-01T13:05:",
        b"2026-03-01T13:05:.5",
        b"2026-03-01T13:05:09Z",
        b"2026-03-01T13:05:09+01:00",
        b"+2026-03-01T13:05:09",
        b"2026-03-01T13:05:9x",
    ];
    for text in broken {
        assert_eq!(parse_timestamp(text), None);
    }
    assert_eq!(parse_timestamp(b"99999999999999999999-03-01T13:05:09"), None);
    assert_eq!(parse_timestamp(b"2026-03-01T13:05:4294967305"), None);
    assert_eq!(parse_timestamp(b"2026-03-01T13:261:09"), None);
    assert_eq!(parse_timestamp("2026-03-01T13:05:0\u{663}".as_bytes()), None);
}

#[test]
fn clock_is_trusted_unless_the_oscillator_stopped() {
    assert!(check_trust_time(Some(false)));
    assert!(!check_trust_time(Some(true)));
    assert!(check_trust_time(None));
}

#[test]
fn clock_is_read_inside_the_rail_when_trusted() {
    assert_eq!(
        get_time(true),
        vec![ClockStep::AcquireRail, ClockStep::ReadDateTime, ClockStep::ReleaseRail]
    );
    assert_eq!(get_time(false), vec![]);
}

#[test]
fn failed_read_keeps_the_last_time() {
    let mut clock = None;
    store_reading(&mut clock, None);
    assert_eq!(clock, None);
    store_reading(&mut clock, Some(moment(2026, 3, 1, 13, 5, 9)));
    assert_eq!(clock, Some(moment(2026, 3, 1, 13, 5, 9)));
    store_reading(&mut clock, None);
    assert_eq!(clock, Some(moment(2026, 3, 1, 13, 5, 9)));
    store_reading(&mut clock, Some(moment(2026, 3, 1, 13, 6, 0)));
    assert_eq!(clock, Some(moment(2026, 3, 1, 13, 6, 0)));
}

#[test]
fn update_delay_runs_to_the_end_of_the_minute() {
    assert_eq!(update_delay(None, 60), 60);
    assert_eq!(update_delay(Some(moment(2026, 3, 1, 13, 5, 0)), 60), 60);
    assert_eq!(update_delay(Some(moment(2026, 3, 1, 13, 5, 9)), 60), 51);
    assert_eq!(update_delay(Some(moment(2026, 3, 1, 13, 5, 49)), 60), 11);
    assert_eq!(update_delay(Some(moment(2026, 3, 1, 13, 5, 50)), 60), 10);
    assert_eq!(update_delay(Some(moment(2026, 3, 1, 13, 5, 51)), 60), 10);
    assert_eq!(update_delay(Some(moment(2026, 3, 1, 13, 5, 59)), 60), 10);
}

#[test]
fn update_delay_follows_the_interval() {
    assert_eq!(update_delay(None, 0), 0);
    assert_eq!(update_delay(None, 3600), 3600);
    assert_eq!(update_delay(Some(moment(2026, 3, 1, 13, 5, 30)), 0), 0);
    assert_eq!(update_delay(Some(moment(2026, 3, 1, 13, 5, 30)), 5), 5);
    assert_eq!(update_delay(Some(moment(2026, 3, 1, 13, 5, 3)), 10), 10);
    assert_eq!(update_delay(Some(moment(2026, 3, 1, 13, 5, 3)), 30), 27);
    assert_eq!(update_delay(Some(moment(2026, 3, 1, 13, 5, 45)), 30), 10);
    assert_eq!(update_delay(Some(moment(2026, 3, 1, 13, 5, 59)), 120), 61);
    assert_eq!(update_delay(Some(moment(2026, 3, 1, 13, 5, 59)), u64::MAX), u64::MAX - 59);
}

#[test]
fn leap_years_follow_the_gregorian_rule() {
    for year in [2024, 2000, 1600, 4, 0, -4, -400, -2000, 9996, i32::MIN] {
        assert!(leap_year(year));
    }
    for year in [2026, 2100, 1900, 1, -1, -100, -9999, 9999, i32::MAX] {
        assert!(!leap_year(year));
    }
    for year in -9999..=9999 {
        assert_eq!(leap_year(year), time::util::is_leap_year(year));
    }
}
