//! Response decoding. JSON parsing itself is a library capability taken
//! from `serde_json`: each schema-directed read of a body is one trusted
//! wrapper whose result is a named function of the body text alone. The
//! discrimination between a success payload, a service-reported error and
//! a contract break is verified code over those names.

use serde_json::Value;
use vstd::prelude::*;

use crate::models::{ApiError, CurrentWeather, Series, WeatherData};

verus! {

/// The candidate list of a geocoding response body: `None` when the body
/// is not a JSON array, otherwise one entry per element — its `lat` and
/// `lon` string fields, or `None` where an element lacks them.
pub uninterp spec fn geo_candidates_of(body: Seq<char>) -> Option<Vec<Option<(String, String)>>>;

/// The mandatory part of a success body: the decimal texts of its numeric
/// `latitude` and `longitude` members, or `None` when the body is not a
/// JSON object carrying both as numbers.
pub uninterp spec fn weather_shell_of(body: Seq<char>) -> Option<(String, String)>;

/// The `current_weather` member of a success body: `Some(None)` when
/// absent, `Some(Some(..))` when present and well-formed, `None` when
/// present but malformed.
pub uninterp spec fn current_block_of(body: Seq<char>) -> Option<Option<CurrentWeather>>;

/// The member named `key` of the body, read as a block of parallel
/// per-variable series: `Some(None)` when absent, `None` when present but
/// not an object of arrays of numbers, strings and nulls.
pub uninterp spec fn series_block_of(body: Seq<char>, key: Seq<char>) -> Option<Option<Vec<Series>>>;

/// The member named `key` of the body, read as a unit-label block (an
/// object of string values): `Some(None)` when absent, `None` when
/// present but malformed.
pub uninterp spec fn units_block_of(body: Seq<char>, key: Seq<char>) -> Option<Option<Vec<(String, String)>>>;

/// The `reason` string of an error body, or `None` when the body does not
/// carry one.
pub uninterp spec fn error_reason_of(body: Seq<char>) -> Option<String>;

/// Relies on `serde_json::from_str` and `serde_json::Value`'s `get` and
/// `as_str`: a JSON array yields one entry per element, carrying the
/// element's `lat` and `lon` string fields where it has both.
#[verifier::external_body]
pub(crate) fn decode_geo_body(body: &str) -> (r: Option<Vec<Option<(String, String)>>>)
    ensures
        r == geo_candidates_of(body@),
{
    let v: Value = match serde_json::from_str(body) { Ok(x) => x, Err(_) => return None };
    let arr = match v { Value::Array(a) => a, _ => return None };
    Some(arr.iter().map(|e| {
        let lat = e.get("lat")?.as_str()?.to_owned();
        let lon = e.get("lon")?.as_str()?.to_owned();
        Some((lat, lon))
    }).collect())
}

/// Relies on `serde_json::from_str` and `Value::get`/`is_number`: a JSON
/// object with numeric `latitude` and `longitude` yields their decimal
/// texts (as `serde_json` prints them).
#[verifier::external_body]
pub(crate) fn decode_shell(body: &str) -> (r: Option<(String, String)>)
    ensures
        r == weather_shell_of(body@),
{
    let v: Value = serde_json::from_str(body).ok()?;
    let la = v.get("latitude")?;
    let lo = v.get("longitude")?;
    if !la.is_number() || !lo.is_number() {
        return None;
    }
    Some((la.to_string(), lo.to_string()))
}

/// Relies on `serde_json::from_str` and `Value` accessors: a present
/// `current_weather` member must be an object with numeric `temperature`,
/// `windspeed` and `weathercode` and a string `time`.
#[verifier::external_body]
pub(crate) fn decode_current(body: &str) -> (r: Option<Option<CurrentWeather>>)
    ensures
        r == current_block_of(body@),
{
    let v: Value = match serde_json::from_str(body) { Ok(x) => x, Err(_) => return None };
    let c = match v.get("current_weather") { None => return Some(None), Some(c) => c };
    let num = |k: &str| c.get(k).filter(|x| x.is_number()).map(|x| x.to_string());
    let cw = CurrentWeather {
        temperature: num("temperature")?,
        windspeed: num("windspeed")?,
        weathercode: num("weathercode")?,
        time: c.get("time")?.as_str()?.to_owned(),
    };
    Some(Some(cw))
}

/// Relies on `serde_json::from_str` and `Value` accessors: a present
/// member named `key` must be an object whose members are arrays of
/// numbers, strings and nulls; each member yields one series of its
/// scalar texts.
#[verifier::external_body]
pub(crate) fn decode_series(body: &str, key: &str) -> (r: Option<Option<Vec<Series>>>)
    ensures
        r == series_block_of(body@, key@),
{
    let v: Value = serde_json::from_str(body).ok()?;
    let b = match v.get(key) { None => return Some(None), Some(b) => b };
    b.as_object()?.iter().map(|(k, val)| Some(Series {
        name: k.clone(),
        values: val.as_array()?.iter().map(|x| match x {
            Value::Null => Some(None),
            Value::Number(n) => Some(Some(n.to_string())),
            Value::String(s) => Some(Some(s.clone())),
            _ => None,
        }).collect::<Option<_>>()?,
    })).collect::<Option<_>>().map(Some)
}

/// Relies on `serde_json::from_str` and `Value` accessors: a present
/// member named `key` must be an object of string values; each member
/// yields one `(name, unit)` pair.
#[verifier::external_body]
pub(crate) fn decode_units(body: &str, key: &str) -> (r: Option<Option<Vec<(String, String)>>>)
    ensures
        r == units_block_of(body@, key@),
{
    let v: Value = match serde_json::from_str(body) { Ok(x) => x, Err(_) => return None };
    let block = |b: &Value| -> Option<Vec<(String, String)>> {
        b.as_object()?.iter().map(|(k, val)| Some((k.clone(), val.as_str()?.to_owned()))).collect()
    };
    match v.get(key) { None => Some(None), Some(b) => block(b).map(Some) }
}

/// Relies on `serde_json::from_str` and `Value::get`/`as_str`: a JSON
/// object with a string `reason` member yields that string.
#[verifier::external_body]
pub(crate) fn decode_error_body(body: &str) -> (r: Option<String>)
    ensures
        r == error_reason_of(body@),
{
    let v: Value = serde_json::from_str(body).ok()?;
    Some(v.get("reason")?.as_str()?.to_owned())
}

/// The success schema as a whole: a body is a well-formed success payload
/// exactly when its shell is present and every optional block is either
/// absent or well-formed.
pub open spec fn weather_of(body: Seq<char>) -> Option<WeatherData> {
    match (weather_shell_of(body), current_block_of(body)) {
        (Some(shell), Some(cur)) => match (
            series_block_of(body, "hourly"@),
            units_block_of(body, "hourly_units"@),
            series_block_of(body, "daily"@),
            units_block_of(body, "daily_units"@),
        ) {
            (Some(h), Some(hu), Some(d), Some(du)) => Some(WeatherData {
                latitude: shell.0,
                longitude: shell.1,
                current_weather: cur,
                hourly_units: hu,
                hourly: h,
                daily_units: du,
                daily: d,
            }),
            _ => None,
        },
        _ => None,
    }
}

/// What decoding a response body must yield: the typed success record
/// when the body matches the success schema; the service's own reason,
/// as `RemoteRejected`, when it matches only the error schema; and
/// `MalformedResponse` — never a silent default — when it matches
/// neither.
pub open spec fn response_outcome(body: Seq<char>) -> Result<WeatherData, ApiError> {
    match weather_of(body) {
        Some(d) => Ok(d),
        None => match error_reason_of(body) {
            Some(reason) => Err(ApiError::RemoteRejected(reason)),
            None => Err(ApiError::MalformedResponse),
        },
    }
}

/// Read a body against the success schema.
pub fn decode_weather(body: &str) -> (r: Option<WeatherData>)
    ensures
        r == weather_of(body@),
{
    let shell = match decode_shell(body) {
        None => return None,
        Some(x) => x,
    };
    let cur = match decode_current(body) {
        None => return None,
        Some(x) => x,
    };
    let h = match decode_series(body, "hourly") {
        None => return None,
        Some(x) => x,
    };
    let hu = match decode_units(body, "hourly_units") {
        None => return None,
        Some(x) => x,
    };
    let d = match decode_series(body, "daily") {
        None => return None,
        Some(x) => x,
    };
    let du = match decode_units(body, "daily_units") {
        None => return None,
        Some(x) => x,
    };
    Some(WeatherData {
        latitude: shell.0,
        longitude: shell.1,
        current_weather: cur,
        hourly_units: hu,
        hourly: h,
        daily_units: du,
        daily: d,
    })
}

/// Turn a raw response body into the typed outcome, with no ambiguity
/// between a service success, a service rejection and a contract break.
pub fn decode_response(body: &str) -> (r: Result<WeatherData, ApiError>)
    ensures
        r == response_outcome(body@),
{
    match decode_weather(body) {
        Some(d) => Ok(d),
        None => match decode_error_body(body) {
            Some(reason) => Err(ApiError::RemoteRejected(reason)),
            None => Err(ApiError::MalformedResponse),
        },
    }
}

} // verus!
