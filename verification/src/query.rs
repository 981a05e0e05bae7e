//! The stateful query builder: a value that accumulates a request URL and
//! records which options are already fixed. Every configuration step
//! consumes the builder and returns a fresh one or a discriminated error;
//! the whole transition relation is written down once as [`step_result`]
//! and every method is proved against it.

use vstd::prelude::*;
use vstd::string::StringExecFns;

use crate::decode::{decode_geo_body, geo_candidates_of};
use crate::models::{ApiError, TimeZone};
use crate::numtext::{dec_digits, u64_text};

verus! {

/// Abstract state of a builder: the accumulated request text and the four
/// once-only flags.
pub struct BuilderState {
    pub url: Seq<char>,
    pub location_set: bool,
    pub time_zone_set: bool,
    pub start_date_set: bool,
    pub end_date_set: bool,
}

/// One configuration step of a builder chain, with the texts it carries.
pub enum ConfigStep {
    Coordinates { lat: Seq<char>, lon: Seq<char> },
    StartDate { date: Seq<char> },
    EndDate { date: Seq<char> },
    CurrentConditions,
    PastDays { n: u64 },
    ForecastDays { n: u64 },
    HourlyAll,
    DailyAll,
    ZoneChoice { zone: TimeZone },
}

/// The forecast endpoint every chain starts from.
pub open spec fn base_url() -> Seq<char> {
    "https://api.open-meteo.com/v1/forecast?"@
}

/// The full fixed catalog of hourly variable names, as one comma-joined
/// parameter value.
pub open spec fn hourly_catalog() -> Seq<char> {
    "temperature_2m,relativehumidity_2m,dewpoint_2m,apparent_temperature,precipitation_probability,precipitation,rain,showers,snowfall,snow_depth,weathercode,pressure_msl,surface_pressure,cloudcover,cloudcover_low,cloudcover_mid,cloudcover_high,visibility,evapotranspiration,et0_fao_evapotranspiration,vapor_pressure_deficit,windspeed_10m,windspeed_80m,windspeed_120m,windspeed_180m,winddirection_10m,winddirection_80m,winddirection_120m,winddirection_180m,windgusts_10m,temperature_80m,temperature_120m,temperature_180m,soil_temperature_0cm,soil_temperature_6cm,soil_temperature_18cm,soil_temperature_54cm,soil_moisture_0_1cm,soil_moisture_1_3cm,soil_moisture_3_9cm,soil_moisture_9_27cm,soil_moisture_27_81cm"@
}

/// The full fixed catalog of daily variable names.
pub open spec fn daily_catalog() -> Seq<char> {
    "weathercode,temperature_2m_max,temperature_2m_min,apparent_temperature_max,apparent_temperature_min,sunrise,sunset,uv_index_max,uv_index_clear_sky_max,precipitation_sum,rain_sum,showers_sum,snowfall_sum,precipitation_hours,precipitation_probability_max,windspeed_10m_max,windgusts_10m_max,winddirection_10m_dominant,shortwave_radiation_sum,et0_fao_evapotranspiration"@
}

/// State of a freshly created builder.
pub open spec fn initial_state() -> BuilderState {
    BuilderState {
        url: base_url(),
        location_set: false,
        time_zone_set: false,
        start_date_set: false,
        end_date_set: false,
    }
}

/// The transition relation of the builder: what one configuration step
/// yields from a given state. Options may be set at most once
/// (`AlreadySet`); the date range, current conditions and day counts need
/// a location first (`LocationNotSet`); daily variables need a time zone
/// first (`TimeZoneNotSet`). Requesting hourly variables has no
/// precondition, and an end date does not need a start date: both mirror
/// the service's own rules, which are checked remotely.
pub open spec fn step_result(b: BuilderState, s: ConfigStep) -> Result<BuilderState, ApiError> {
    match s {
        ConfigStep::Coordinates { lat, lon } => if b.location_set {
            Err(ApiError::AlreadySet)
        } else {
            Ok(BuilderState {
                url: b.url + "latitude="@ + lat + "&longitude="@ + lon,
                location_set: true,
                time_zone_set: b.time_zone_set,
                start_date_set: b.start_date_set,
                end_date_set: b.end_date_set,
            })
        },
        ConfigStep::StartDate { date } => if b.start_date_set {
            Err(ApiError::AlreadySet)
        } else if !b.location_set {
            Err(ApiError::LocationNotSet)
        } else {
            Ok(BuilderState {
                url: b.url + "&start_date="@ + date,
                location_set: b.location_set,
                time_zone_set: b.time_zone_set,
                start_date_set: true,
                end_date_set: b.end_date_set,
            })
        },
        ConfigStep::EndDate { date } => if b.end_date_set {
            Err(ApiError::AlreadySet)
        } else if !b.location_set {
            Err(ApiError::LocationNotSet)
        } else {
            Ok(BuilderState {
                url: b.url + "&end_date="@ + date,
                location_set: b.location_set,
                time_zone_set: b.time_zone_set,
                start_date_set: b.start_date_set,
                end_date_set: true,
            })
        },
        ConfigStep::CurrentConditions => if !b.location_set {
            Err(ApiError::LocationNotSet)
        } else {
            Ok(BuilderState {
                url: b.url + "&current_weather=true"@,
                location_set: b.location_set,
                time_zone_set: b.time_zone_set,
                start_date_set: b.start_date_set,
                end_date_set: b.end_date_set,
            })
        },
        ConfigStep::PastDays { n } => if !b.location_set {
            Err(ApiError::LocationNotSet)
        } else {
            Ok(BuilderState {
                url: b.url + "&past_days="@ + dec_digits(n as nat),
                location_set: b.location_set,
                time_zone_set: b.time_zone_set,
                start_date_set: b.start_date_set,
                end_date_set: b.end_date_set,
            })
        },
        ConfigStep::ForecastDays { n } => if !b.location_set {
            Err(ApiError::LocationNotSet)
        } else {
            Ok(BuilderState {
                url: b.url + "&forecast_days="@ + dec_digits(n as nat),
                location_set: b.location_set,
                time_zone_set: b.time_zone_set,
                start_date_set: b.start_date_set,
                end_date_set: b.end_date_set,
            })
        },
        ConfigStep::HourlyAll => Ok(BuilderState {
            url: b.url + "&hourly="@ + hourly_catalog(),
            location_set: b.location_set,
            time_zone_set: b.time_zone_set,
            start_date_set: b.start_date_set,
            end_date_set: b.end_date_set,
        }),
        ConfigStep::DailyAll => if !b.time_zone_set {
            Err(ApiError::TimeZoneNotSet)
        } else {
            Ok(BuilderState {
                url: b.url + "&daily="@ + daily_catalog(),
                location_set: b.location_set,
                time_zone_set: b.time_zone_set,
                start_date_set: b.start_date_set,
                end_date_set: b.end_date_set,
            })
        },
        ConfigStep::ZoneChoice { zone } => if b.time_zone_set {
            Err(ApiError::AlreadySet)
        } else {
            Ok(BuilderState {
                url: b.url + "&timezone="@ + zone.label(),
                location_set: b.location_set,
                time_zone_set: true,
                start_date_set: b.start_date_set,
                end_date_set: b.end_date_set,
            })
        },
    }
}

/// What a configuration method must return: exactly the outcome that
/// [`step_result`] gives for its step, both in the success state and in
/// the error value.
pub open spec fn step_outcome(pre: BuilderState, s: ConfigStep, r: Result<OpenMeteo, ApiError>) -> bool {
    match step_result(pre, s) {
        Ok(v) => r matches Ok(nb) && nb@ == v,
        Err(e) => r matches Err(a) && a == e,
    }
}

/// The evolving request: the URL assembled so far plus one flag per
/// once-only option.
#[derive(Debug)]
pub struct OpenMeteo {
    pub api_url: String,
    pub set_coordinates: bool,
    pub set_time_zone: bool,
    pub set_start_date: bool,
    pub set_end_date: bool,
}

impl View for OpenMeteo {
    type V = BuilderState;

    open spec fn view(&self) -> BuilderState {
        BuilderState {
            url: self.api_url@,
            location_set: self.set_coordinates,
            time_zone_set: self.set_time_zone,
            start_date_set: self.set_start_date,
            end_date_set: self.set_end_date,
        }
    }
}

impl OpenMeteo {
    /// A fresh builder pointed at the forecast endpoint with nothing set.
    pub fn new() -> (r: Self)
        ensures
            r@ == initial_state(),
    {
        OpenMeteo {
            api_url: "https://api.open-meteo.com/v1/forecast?".to_owned(),
            set_coordinates: false,
            set_time_zone: false,
            set_start_date: false,
            set_end_date: false,
        }
    }

    /// The request text assembled so far; the final GET is issued against it.
    pub fn url(&self) -> (r: &str)
        ensures
            r@ == self@.url,
    {
        self.api_url.as_str()
    }

    /// Fix the coordinates, given as decimal-degree texts. Fails with
    /// `AlreadySet` if a location was fixed before.
    pub fn coordinates(self, lat: &str, lon: &str) -> (r: Result<OpenMeteo, ApiError>)
        ensures
            step_outcome(self@, ConfigStep::Coordinates { lat: lat@, lon: lon@ }, r),
    {
        let ghost pre = self@;
        if self.set_coordinates {
            return Err(ApiError::AlreadySet);
        }
        let mut u = self.api_url;
        u.append("latitude=");
        u.append(lat);
        u.append("&longitude=");
        u.append(lon);
        let nb = OpenMeteo {
            api_url: u,
            set_coordinates: true,
            set_time_zone: self.set_time_zone,
            set_start_date: self.set_start_date,
            set_end_date: self.set_end_date,
        };
        proof {
            assert(nb.api_url@ =~= pre.url + "latitude="@ + lat@ + "&longitude="@ + lon@);
        }
        Ok(nb)
    }

    /// Fix the start of the date range (text is passed through unread).
    /// Fails with `AlreadySet` on a second attempt and with
    /// `LocationNotSet` before a location is fixed.
    pub fn start_date(self, start_date: &str) -> (r: Result<OpenMeteo, ApiError>)
        ensures
            step_outcome(self@, ConfigStep::StartDate { date: start_date@ }, r),
    {
        let ghost pre = self@;
        if self.set_start_date {
            return Err(ApiError::AlreadySet);
        }
        if !self.set_coordinates {
            return Err(ApiError::LocationNotSet);
        }
        let mut u = self.api_url;
        u.append("&start_date=");
        u.append(start_date);
        let nb = OpenMeteo {
            api_url: u,
            set_coordinates: self.set_coordinates,
            set_time_zone: self.set_time_zone,
            set_start_date: true,
            set_end_date: self.set_end_date,
        };
        proof {
            assert(nb.api_url@ =~= pre.url + "&start_date="@ + start_date@);
        }
        Ok(nb)
    }

    /// Fix the end of the date range. Same rules as [`Self::start_date`];
    /// that no start date is required first mirrors the service's own
    /// checking.
    pub fn end_date(self, end_date: &str) -> (r: Result<OpenMeteo, ApiError>)
        ensures
            step_outcome(self@, ConfigStep::EndDate { date: end_date@ }, r),
    {
        let ghost pre = self@;
        if self.set_end_date {
            return Err(ApiError::AlreadySet);
        }
        if !self.set_coordinates {
            return Err(ApiError::LocationNotSet);
        }
        let mut u = self.api_url;
        u.append("&end_date=");
        u.append(end_date);
        let nb = OpenMeteo {
            api_url: u,
            set_coordinates: self.set_coordinates,
            set_time_zone: self.set_time_zone,
            set_start_date: self.set_start_date,
            set_end_date: true,
        };
        proof {
            assert(nb.api_url@ =~= pre.url + "&end_date="@ + end_date@);
        }
        Ok(nb)
    }

    /// Ask for the current-conditions block. Needs a location.
    pub fn current_weather(self) -> (r: Result<OpenMeteo, ApiError>)
        ensures
            step_outcome(self@, ConfigStep::CurrentConditions, r),
    {
        let ghost pre = self@;
        if !self.set_coordinates {
            return Err(ApiError::LocationNotSet);
        }
        let mut u = self.api_url;
        u.append("&current_weather=true");
        let nb = OpenMeteo {
            api_url: u,
            set_coordinates: self.set_coordinates,
            set_time_zone: self.set_time_zone,
            set_start_date: self.set_start_date,
            set_end_date: self.set_end_date,
        };
        proof {
            assert(nb.api_url@ =~= pre.url + "&current_weather=true"@);
        }
        Ok(nb)
    }

    /// Ask for `past_days` days of past data. Needs a location; the count
    /// itself is checked by the service.
    pub fn past_days(self, past_days: u64) -> (r: Result<OpenMeteo, ApiError>)
        ensures
            step_outcome(self@, ConfigStep::PastDays { n: past_days }, r),
    {
        let ghost pre = self@;
        if !self.set_coordinates {
            return Err(ApiError::LocationNotSet);
        }
        let mut u = self.api_url;
        u.append("&past_days=");
        let t = u64_text(past_days);
        u.append(t.as_str());
        let nb = OpenMeteo {
            api_url: u,
            set_coordinates: self.set_coordinates,
            set_time_zone: self.set_time_zone,
            set_start_date: self.set_start_date,
            set_end_date: self.set_end_date,
        };
        proof {
            assert(nb.api_url@ =~= pre.url + "&past_days="@ + dec_digits(past_days as nat));
        }
        Ok(nb)
    }

    /// Ask for `forecast_days` days of forecast. Needs a location; the
    /// service itself caps the horizon and rejects a longer request.
    pub fn forecast_days(self, forecast_days: u64) -> (r: Result<OpenMeteo, ApiError>)
        ensures
            step_outcome(self@, ConfigStep::ForecastDays { n: forecast_days }, r),
    {
        let ghost pre = self@;
        if !self.set_coordinates {
            return Err(ApiError::LocationNotSet);
        }
        let mut u = self.api_url;
        u.append("&forecast_days=");
        let t = u64_text(forecast_days);
        u.append(t.as_str());
        let nb = OpenMeteo {
            api_url: u,
            set_coordinates: self.set_coordinates,
            set_time_zone: self.set_time_zone,
            set_start_date: self.set_start_date,
            set_end_date: self.set_end_date,
        };
        proof {
            assert(nb.api_url@ =~= pre.url + "&forecast_days="@ + dec_digits(forecast_days as nat));
        }
        Ok(nb)
    }

    /// Ask for the full hourly catalog. Deliberately has no location
    /// precondition, mirroring the service contract.
    pub fn hourly(self) -> (r: Result<OpenMeteo, ApiError>)
        ensures
            step_outcome(self@, ConfigStep::HourlyAll, r),
    {
        let ghost pre = self@;
        let mut u = self.api_url;
        u.append("&hourly=");
        u.append(hourly_catalog_text());
        let nb = OpenMeteo {
            api_url: u,
            set_coordinates: self.set_coordinates,
            set_time_zone: self.set_time_zone,
            set_start_date: self.set_start_date,
            set_end_date: self.set_end_date,
        };
        proof {
            assert(nb.api_url@ =~= pre.url + "&hourly="@ + hourly_catalog());
        }
        Ok(nb)
    }

    /// Ask for the full daily catalog. Daily aggregates are keyed to a
    /// time zone, so this fails with `TimeZoneNotSet` until one is set.
    pub fn daily(self) -> (r: Result<OpenMeteo, ApiError>)
        ensures
            step_outcome(self@, ConfigStep::DailyAll, r),
    {
        let ghost pre = self@;
        if !self.set_time_zone {
            return Err(ApiError::TimeZoneNotSet);
        }
        let mut u = self.api_url;
        u.append("&daily=");
        u.append(daily_catalog_text());
        let nb = OpenMeteo {
            api_url: u,
            set_coordinates: self.set_coordinates,
            set_time_zone: self.set_time_zone,
            set_start_date: self.set_start_date,
            set_end_date: self.set_end_date,
        };
        proof {
            assert(nb.api_url@ =~= pre.url + "&daily="@ + daily_catalog());
        }
        Ok(nb)
    }

    /// Fix the time zone. Fails with `AlreadySet` on a second attempt.
    pub fn time_zone(self, time_zone: TimeZone) -> (r: Result<OpenMeteo, ApiError>)
        ensures
            step_outcome(self@, ConfigStep::ZoneChoice { zone: time_zone }, r),
    {
        let ghost pre = self@;
        if self.set_time_zone {
            return Err(ApiError::AlreadySet);
        }
        let mut u = self.api_url;
        u.append("&timezone=");
        u.append(time_zone.text());
        let nb = OpenMeteo {
            api_url: u,
            set_coordinates: self.set_coordinates,
            set_time_zone: true,
            set_start_date: self.set_start_date,
            set_end_date: self.set_end_date,
        };
        proof {
            assert(nb.api_url@ =~= pre.url + "&timezone="@ + time_zone.label());
        }
        Ok(nb)
    }
}

/// The hourly catalog as request text.
fn hourly_catalog_text() -> (r: &'static str)
    ensures
        r@ == hourly_catalog(),
{
    "temperature_2m,relativehumidity_2m,dewpoint_2m,apparent_temperature,precipitation_probability,precipitation,rain,showers,snowfall,snow_depth,weathercode,pressure_msl,surface_pressure,cloudcover,cloudcover_low,cloudcover_mid,cloudcover_high,visibility,evapotranspiration,et0_fao_evapotranspiration,vapor_pressure_deficit,windspeed_10m,windspeed_80m,windspeed_120m,windspeed_180m,winddirection_10m,winddirection_80m,winddirection_120m,winddirection_180m,windgusts_10m,temperature_80m,temperature_120m,temperature_180m,soil_temperature_0cm,soil_temperature_6cm,soil_temperature_18cm,soil_temperature_54cm,soil_moisture_0_1cm,soil_moisture_1_3cm,soil_moisture_3_9cm,soil_moisture_9_27cm,soil_moisture_27_81cm"
}

/// The daily catalog as request text.
fn daily_catalog_text() -> (r: &'static str)
    ensures
        r@ == daily_catalog(),
{
    "weathercode,temperature_2m_max,temperature_2m_min,apparent_temperature_max,apparent_temperature_min,sunrise,sunset,uv_index_max,uv_index_clear_sky_max,precipitation_sum,rain_sum,showers_sum,snowfall_sum,precipitation_hours,precipitation_probability_max,windspeed_10m_max,windgusts_10m_max,winddirection_10m_dominant,shortwave_radiation_sum,et0_fao_evapotranspiration"
}

/// The place-name search request sent to the geocoding collaborator.
pub open spec fn geocode_url_text(place: Seq<char>) -> Seq<char> {
    "https://geocode.maps.co/search?q="@ + place
}

/// Build the geocoding request for a free-text place name.
pub fn geocode_url(place: &str) -> (r: String)
    ensures
        r@ == geocode_url_text(place@),
{
    let mut u = "https://geocode.maps.co/search?q=".to_owned();
    u.append(place);
    u
}

/// A digit character.
pub open spec fn digit_char(c: char) -> bool {
    48 <= c as u32 && c as u32 <= 57
}

/// A decimal-degree text: an optional leading minus sign, then at least
/// one digit and at most one decimal point, and nothing else. This is the
/// form a geocoding candidate's coordinates must take to count as
/// interpretable.
pub open spec fn coordinate_text(s: Seq<char>) -> bool {
    let st: int = if s.len() > 0 && s[0] == '-' {
        1
    } else {
        0
    };
    &&& s.len() > st
    &&& forall|i: int| st <= i < s.len() ==> digit_char(s[i]) || s[i] == '.'
    &&& exists|i: int| st <= i < s.len() && digit_char(s[i])
    &&& forall|i: int, j: int|
        st <= i < s.len() && st <= j < s.len() && s[i] == '.' && s[j] == '.' ==> i == j
}

/// Decide [`coordinate_text`] for a given text.
pub fn is_coordinate_text(s: &str) -> (r: bool)
    ensures
        r == coordinate_text(s@),
{
    let n = s.unicode_len();
    if n == 0 {
        return false;
    }
    let c0 = s.get_char(0);
    let start: usize = if c0 == '-' {
        1
    } else {
        0
    };
    let mut i: usize = start;
    let mut seen_digit = false;
    while i < n
        invariant
            n == s@.len(),
            0 < n,
            start <= i <= n,
            start == (if s@[0] == '-' {
                1int
            } else {
                0int
            }),
            forall|k: int| start <= k < i ==> digit_char(s@[k]) || s@[k] == '.',
            seen_digit == exists|k: int| start <= k < i && digit_char(s@[k]),
            forall|k1: int, k2: int|
                start <= k1 < i && start <= k2 < i && s@[k1] == '.' && s@[k2] == '.' ==> k1 == k2,
        decreases n - i,
    {
        let c = s.get_char(i);
        let cu = c as u32;
        if 48 <= cu && cu <= 57 {
            seen_digit = true;
        } else if c == '.' {
            let mut k: usize = start;
            let mut earlier_dot = false;
            while k < i
                invariant
                    start <= k <= i <= n,
                    n == s@.len(),
                    earlier_dot == exists|k2: int| start <= k2 < k && s@[k2] == '.',
                decreases i - k,
            {
                if s.get_char(k) == '.' {
                    earlier_dot = true;
                }
                k += 1;
            }
            if earlier_dot {
                return false;
            }
        } else {
            return false;
        }
        i += 1;
    }
    seen_digit && start < n
}

/// What resolving a place name from a geocoding response body yields: a
/// body that is no JSON array, or whose first candidate lacks
/// interpretable coordinates, is `ParseFailed`; an empty candidate list is
/// `NoMatch`; otherwise the first candidate's coordinates are fixed as if
/// passed to the coordinates step, so a location set before still yields
/// `AlreadySet`.
pub open spec fn resolve_outcome(b: BuilderState, body: Seq<char>) -> Result<
    BuilderState,
    ApiError,
> {
    match geo_candidates_of(body) {
        None => Err(ApiError::ParseFailed),
        Some(cands) => if cands@.len() == 0 {
            Err(ApiError::NoMatch)
        } else {
            match cands@[0] {
                None => Err(ApiError::ParseFailed),
                Some(c) => if coordinate_text(c.0@) && coordinate_text(c.1@) {
                    step_result(
                        b,
                        ConfigStep::Coordinates { lat: c.0@, lon: c.1@ },
                    )
                } else {
                    Err(ApiError::ParseFailed)
                },
            }
        },
    }
}

impl OpenMeteo {
    /// Fix the location from a geocoding response body: take the first
    /// candidate's coordinates. The transport itself (the GET against
    /// [`geocode_url`]) is the caller's; this is everything after it.
    pub fn resolve_with_body(self, body: &str) -> (r: Result<OpenMeteo, ApiError>)
        ensures
            match resolve_outcome(self@, body@) {
                Ok(v) => r matches Ok(nb) && nb@ == v,
                Err(e) => r matches Err(a) && a == e,
            },
    {
        let cands = match decode_geo_body(body) {
            None => {
                return Err(ApiError::ParseFailed);
            },
            Some(c) => c,
        };
        if cands.len() == 0 {
            return Err(ApiError::NoMatch);
        }
        match &cands[0] {
            None => Err(ApiError::ParseFailed),
            Some(c) => {
                if is_coordinate_text(c.0.as_str()) && is_coordinate_text(c.1.as_str()) {
                    self.coordinates(c.0.as_str(), c.1.as_str())
                } else {
                    Err(ApiError::ParseFailed)
                }
            },
        }
    }
}

} // verus!
