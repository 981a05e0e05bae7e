use open_meteo::models::{ApiError, TimeZone};
use open_meteo::numtext::u64_text;
use open_meteo::query::{geocode_url, is_coordinate_text, OpenMeteo};

const BERLIN: &str = r#"[{"lat":"52.52","lon":"13.40"}]"#;
const LONDON: &str = r#"[{"lat":"51.50","lon":"-0.12"}]"#;
const COPENHAGEN: &str = r#"[{"lat":"55.67","lon":"12.56"}]"#;

#[test]
fn fresh_builder_url() {
    let b = OpenMeteo::new();
    assert_eq!(b.url(), "https://api.open-meteo.com/v1/forecast?");
}

#[test]
fn coordinates_url_exact() {
    let b = OpenMeteo::new().coordinates("51", "0").unwrap();
    assert_eq!(b.url(), "https://api.open-meteo.com/v1/forecast?latitude=51&longitude=0");
}

#[test]
fn full_chain_url_parts() {
    let b = OpenMeteo::new()
        .coordinates("55", "13")
        .unwrap()
        .start_date("2023-09-01")
        .unwrap()
        .end_date("2023-09-10")
        .unwrap()
        .time_zone(TimeZone::EuropeLondon)
        .unwrap()
        .past_days(10)
        .unwrap()
        .forecast_days(10)
        .unwrap()
        .hourly()
        .unwrap()
        .daily()
        .unwrap();
    let url = b.url();
    assert!(url.starts_with("https://api.open-meteo.com/v1/forecast?latitude=55&longitude=13"));
    assert!(url.contains("&start_date=2023-09-01"));
    assert!(url.contains("&end_date=2023-09-10"));
    assert!(url.contains("&timezone=Europe%2FLondon"));
    assert!(url.contains("&past_days=10"));
    assert!(url.contains("&forecast_days=10"));
    assert!(url.contains("&hourly=temperature_2m,relativehumidity_2m,"));
    assert!(url.contains("&daily=weathercode,temperature_2m_max,"));
    assert!(url.ends_with(",shortwave_radiation_sum,et0_fao_evapotranspiration"));
}

#[test]
fn time_zone_special_values() {
    let gmt = OpenMeteo::new().time_zone(TimeZone::GMT0).unwrap();
    assert_eq!(gmt.url(), "https://api.open-meteo.com/v1/forecast?&timezone=GMT");
    let auto = OpenMeteo::new().time_zone(TimeZone::Auto).unwrap();
    assert_eq!(auto.url(), "https://api.open-meteo.com/v1/forecast?&timezone=auto");
}

#[test]
fn time_zone_identifiers_are_service_ids() {
    let tokyo = OpenMeteo::new().time_zone(TimeZone::AsiaTokyo).unwrap();
    assert_eq!(tokyo.url(), "https://api.open-meteo.com/v1/forecast?&timezone=Asia%2FTokyo");
    let sao_paulo = OpenMeteo::new().time_zone(TimeZone::AmericaSaoPaulo).unwrap();
    assert_eq!(
        sao_paulo.url(),
        "https://api.open-meteo.com/v1/forecast?&timezone=America%2FSao_Paulo"
    );
}

#[test]
fn location_not_set_error() {
    let test1 = OpenMeteo::new().current_weather();
    let test2 = OpenMeteo::new().past_days(10);
    let test3 = OpenMeteo::new().forecast_days(10);

    assert!(test1.is_err());
    assert!(test2.is_err());
    assert!(test3.is_err());
    assert_eq!(test1.unwrap_err(), ApiError::LocationNotSet);
    assert_eq!(test2.unwrap_err(), ApiError::LocationNotSet);
    assert_eq!(test3.unwrap_err(), ApiError::LocationNotSet);
}

#[test]
fn start_and_end_date_need_location() {
    assert_eq!(
        OpenMeteo::new().start_date("2023-09-01").unwrap_err(),
        ApiError::LocationNotSet
    );
    assert_eq!(OpenMeteo::new().end_date("2023-09-10").unwrap_err(), ApiError::LocationNotSet);
}

#[test]
fn location_is_already_set_error() {
    let test1 = OpenMeteo::new()
        .resolve_with_body(BERLIN)
        .unwrap()
        .forecast_days(10)
        .unwrap()
        .resolve_with_body(COPENHAGEN);
    let test2 = OpenMeteo::new()
        .coordinates("55", "37")
        .unwrap()
        .forecast_days(10)
        .unwrap()
        .coordinates("55", "12");
    let test3 = OpenMeteo::new()
        .coordinates("55", "37")
        .unwrap()
        .forecast_days(10)
        .unwrap()
        .resolve_with_body(LONDON);

    assert!(test1.is_err());
    assert!(test2.is_err());
    assert!(test3.is_err());
    assert_eq!(test1.unwrap_err(), ApiError::AlreadySet);
    assert_eq!(test2.unwrap_err(), ApiError::AlreadySet);
    assert_eq!(test3.unwrap_err(), ApiError::AlreadySet);
}

#[test]
fn start_date_twice_already_set() {
    let r = OpenMeteo::new()
        .coordinates("55", "13")
        .unwrap()
        .start_date("2023-09-01")
        .unwrap()
        .current_weather()
        .unwrap()
        .start_date("2023-09-02");
    assert_eq!(r.unwrap_err(), ApiError::AlreadySet);
}

#[test]
fn end_date_twice_already_set() {
    let r = OpenMeteo::new()
        .coordinates("55", "13")
        .unwrap()
        .end_date("2023-09-10")
        .unwrap()
        .end_date("2023-09-11");
    assert_eq!(r.unwrap_err(), ApiError::AlreadySet);
}

#[test]
fn test_daily() {
    let test = OpenMeteo::new()
        .resolve_with_body(LONDON)
        .unwrap()
        .forecast_days(10)
        .unwrap()
        .time_zone(TimeZone::EuropeLondon)
        .unwrap()
        .daily();

    assert!(test.is_ok());
}

#[test]
fn daily_without_timezone_error() {
    let test = OpenMeteo::new()
        .resolve_with_body(LONDON)
        .unwrap()
        .forecast_days(10)
        .unwrap()
        .daily();

    assert!(test.is_err());
    assert_eq!(test.unwrap_err(), ApiError::TimeZoneNotSet);
}

#[test]
fn timezone_already_set_error() {
    let test = OpenMeteo::new()
        .resolve_with_body(LONDON)
        .unwrap()
        .time_zone(TimeZone::EuropeLondon)
        .unwrap()
        .forecast_days(10)
        .unwrap()
        .daily()
        .unwrap()
        .time_zone(TimeZone::EuropeBerlin);

    assert!(test.is_err());
    assert_eq!(test.unwrap_err(), ApiError::AlreadySet);
}

#[test]
fn hourly_needs_no_location() {
    let b = OpenMeteo::new().hourly().unwrap();
    assert!(b.url().contains("&hourly=temperature_2m,"));
}

#[test]
fn u64_text_exact_values() {
    assert_eq!(u64_text(0), "0");
    assert_eq!(u64_text(7), "7");
    assert_eq!(u64_text(10), "10");
    assert_eq!(u64_text(16), "16");
    assert_eq!(u64_text(1234567890), "1234567890");
    assert_eq!(u64_text(u64::MAX), "18446744073709551615");
}

#[test]
fn geocode_url_exact() {
    assert_eq!(geocode_url("London"), "https://geocode.maps.co/search?q=London");
}

#[test]
fn coordinate_text_accepts_decimal_degrees() {
    assert!(is_coordinate_text("51"));
    assert!(is_coordinate_text("51.5074"));
    assert!(is_coordinate_text("-0.1278"));
    assert!(is_coordinate_text("-13"));
    assert!(is_coordinate_text("0.0"));
}

#[test]
fn coordinate_text_rejects_other_text() {
    assert!(!is_coordinate_text(""));
    assert!(!is_coordinate_text("-"));
    assert!(!is_coordinate_text("."));
    assert!(!is_coordinate_text("abc"));
    assert!(!is_coordinate_text("1.2.3"));
    assert!(!is_coordinate_text("5-5"));
    assert!(!is_coordinate_text("+5"));
    assert!(!is_coordinate_text("1e5"));
}
