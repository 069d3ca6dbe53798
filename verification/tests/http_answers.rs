use badge_core::clock::DateTime;
use badge_core::http::{fetch_api, fetch_time, fetch_weather};
use badge_core::state::{CurrentWeather, HttpError};

fn earlier() -> DateTime {
    DateTime { year: 2025, month: 12, day: 31, hour: 23, minute: 59, second: 59 }
}

#[test]
fn answer_needs_a_body_that_decodes() {
    assert_eq!(fetch_api(Ok(Some(7u8))), Ok(7));
    assert_eq!(fetch_api::<u8>(Ok(None)), Err(()));
    assert_eq!(fetch_api::<u8>(Err(HttpError)), Err(()));
}

#[test]
fn fetched_time_becomes_the_shared_clock() {
    let expected = DateTime { year: 2026, month: 3, day: 1, hour: 13, minute: 5, second: 9 };
    let text: &[u8] = b"2026-03-01T13:05:09.123";
    let mut clock = None;
    assert_eq!(fetch_time(&mut clock, Ok(Some(text))), Some(expected));
    assert_eq!(clock, Some(expected));
    let mut clock = Some(earlier());
    assert_eq!(fetch_time(&mut clock, Ok(Some(text))), Some(expected));
    assert_eq!(clock, Some(expected));
}

#[test]
fn failed_time_fetch_keeps_the_shared_clock() {
    let broken: &[u8] = b"2026-02-30T13:05:09";
    let garbage: &[u8] = b"yesterday";
    for response in [Err(HttpError), Ok(None), Ok(Some(broken)), Ok(Some(garbage))] {
        let mut clock = Some(earlier());
        assert_eq!(fetch_time(&mut clock, response), None);
        assert_eq!(clock, Some(earlier()));
        let mut clock = None;
        assert_eq!(fetch_time(&mut clock, response), None);
        assert_eq!(clock, None);
    }
}

#[test]
fn fetched_weather_becomes_the_shared_weather() {
    let report = CurrentWeather { temperature: 125, weathercode: 3 };
    let mut weather = None;
    assert_eq!(fetch_weather(&mut weather, Ok(Some(report))), Some(report));
    assert_eq!(weather, Some(report));
    let newer = CurrentWeather { temperature: -20, weathercode: 71 };
    assert_eq!(fetch_weather(&mut weather, Ok(Some(newer))), Some(newer));
    assert_eq!(weather, Some(newer));
}

#[test]
fn failed_weather_fetch_keeps_the_shared_weather() {
    let report = CurrentWeather { temperature: 125, weathercode: 3 };
    for response in [Err(HttpError), Ok(None)] {
        let mut weather = Some(report);
        assert_eq!(fetch_weather(&mut weather, response), None);
        assert_eq!(weather, Some(report));
        let mut weather = None;
        assert_eq!(fetch_weather(&mut weather, response), None);
        assert_eq!(weather, None);
    }
}
