//! End-to-end chains against stubbed collaborator responses: the builder
//! assembles the request, the stub plays the remote service's answer, and
//! the decoder classifies it.

use open_meteo::decode::decode_response;
use open_meteo::models::ApiError;
use open_meteo::query::{geocode_url, OpenMeteo};

#[test]
fn coordinates_then_minimal_success() {
    let b = OpenMeteo::new().coordinates("51", "0").unwrap();
    assert_eq!(b.url(), "https://api.open-meteo.com/v1/forecast?latitude=51&longitude=0");
    // The stub service answers the GET with a minimal valid success body.
    let data = decode_response(r#"{"latitude":51.0,"longitude":0.0}"#).unwrap();
    assert!(data.current_weather.is_none());
    assert!(data.hourly.is_none());
    assert!(data.hourly_units.is_none());
    assert!(data.daily.is_none());
    assert!(data.daily_units.is_none());
}

#[test]
fn lookup_with_no_candidates_is_no_match() {
    assert_eq!(geocode_url("Nowhere"), "https://geocode.maps.co/search?q=Nowhere");
    // The stub geocoder answers with an empty candidate list.
    let r = OpenMeteo::new().resolve_with_body("[]");
    assert_eq!(r.unwrap_err(), ApiError::NoMatch);
}

#[test]
fn lookup_takes_first_candidate() {
    let body = r#"[{"lat":"55.75","lon":"37.61"},{"lat":"1","lon":"2"}]"#;
    let b = OpenMeteo::new().resolve_with_body(body).unwrap();
    assert_eq!(
        b.url(),
        "https://api.open-meteo.com/v1/forecast?latitude=55.75&longitude=37.61"
    );
}

#[test]
fn lookup_with_unreadable_body_is_parse_failed() {
    assert_eq!(
        OpenMeteo::new().resolve_with_body("nonsense").unwrap_err(),
        ApiError::ParseFailed
    );
    assert_eq!(
        OpenMeteo::new().resolve_with_body(r#"{"lat":"1","lon":"2"}"#).unwrap_err(),
        ApiError::ParseFailed
    );
    assert_eq!(
        OpenMeteo::new().resolve_with_body(r#"[{"name":"x"}]"#).unwrap_err(),
        ApiError::ParseFailed
    );
    assert_eq!(
        OpenMeteo::new().resolve_with_body(r#"[{"lat":"abc","lon":"1.0"}]"#).unwrap_err(),
        ApiError::ParseFailed
    );
}

#[test]
fn forecast_more_than_16_days_error() {
    let b = OpenMeteo::new()
        .coordinates("55", "13")
        .unwrap()
        .forecast_days(17)
        .unwrap();
    assert!(b.url().contains("&forecast_days=17"));
    // The service caps the horizon at 16 days and rejects the request.
    let test = decode_response(r#"{"error":true,"reason":"Forecast days is invalid"}"#);

    assert!(test.is_err());
    assert_eq!(test.unwrap_err(), ApiError::RemoteRejected("Forecast days is invalid".to_owned()));
}

#[test]
fn end_date_without_start_date_error() {
    let b = OpenMeteo::new()
        .resolve_with_body(r#"[{"lat":"51.50","lon":"-0.12"}]"#)
        .unwrap()
        .current_weather()
        .unwrap()
        .end_date("2023-12-12")
        .unwrap();
    assert!(b.url().contains("&end_date=2023-12-12"));
    // The builder passes the asymmetry through; the service itself
    // rejects an end date with no start date.
    let test = decode_response(r#"{"error":true,"reason":"Parameter end_date needs start_date"}"#);

    assert!(test.is_err());
}
