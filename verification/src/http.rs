//! What the sync does with the answers of the time service and the weather
//! service.
//!
//! The firmware sends the requests and decodes the bodies. It hands over what
//! came back: the failed request, the body that could not be decoded, or the
//! decoded value.

use vstd::prelude::*;
use crate::clock::{timestamp_of, parse_timestamp, DateTime};
use crate::state::{CurrentWeather, HttpError};

verus! {

/// The value of an answer: there is one when the request brought a body and
/// the body could be decoded.
pub open spec fn answer_of<T>(response: Result<Option<T>, HttpError>) -> Result<T, ()> {
    match response {
        Ok(Some(value)) => Ok(value),
        _ => Err(()),
    }
}

/// The decoded value of a response, or `Err` when the request failed or its
/// body could not be decoded.
pub fn fetch_api<T>(response: Result<Option<T>, HttpError>) -> (answer: Result<T, ()>)
    ensures
        answer == answer_of(response),
{
    match response {
        Ok(Some(value)) => Ok(value),
        Ok(None) => Err(()),
        Err(_) => Err(()),
    }
}

/// The moment that the time service named, if it named one.
pub open spec fn fetched_moment(response: Result<Option<&[u8]>, HttpError>) -> Option<DateTime> {
    match response {
        Ok(Some(text)) => timestamp_of(text@),
        _ => None,
    }
}

/// Takes the answer of the time service, which carries a timestamp as text.
///
/// A timestamp that names a moment becomes the shared clock and is returned,
/// to be written to the real-time clock as well. Anything else leaves the
/// shared clock as it was and returns `None`.
pub fn fetch_time(clock: &mut Option<DateTime>, response: Result<Option<&[u8]>, HttpError>) -> (set: Option<DateTime>)
    ensures
        set == fetched_moment(response),
        set matches Some(t) ==> t.valid(),
        *final(clock) == (match fetched_moment(response) {
            Some(moment) => Some(moment),
            None => *old(clock),
        }),
{
    match fetch_api(response) {
        Ok(text) => match parse_timestamp(text) {
            Some(moment) => {
                *clock = Some(moment);
                Some(moment)
            },
            None => None,
        },
        Err(_) => None,
    }
}

/// Takes the answer of the weather service.
///
/// A report becomes the shared weather and is returned, to be written to flash
/// as well. Anything else leaves the shared weather as it was and returns
/// `None`.
pub fn fetch_weather(
    weather: &mut Option<CurrentWeather>,
    response: Result<Option<CurrentWeather>, HttpError>,
) -> (stored: Option<CurrentWeather>)
    ensures
        stored == (match response {
            Ok(Some(report)) => Some(report),
            _ => None,
        }),
        *final(weather) == (match response {
            Ok(Some(report)) => Some(report),
            _ => *old(weather),
        }),
{
    match fetch_api(response) {
        Ok(report) => {
            *weather = Some(report);
            Some(report)
        },
        Err(_) => None,
    }
}

} // verus!
