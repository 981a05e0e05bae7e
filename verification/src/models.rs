//! Value types shared by the builder and the decoder: the closed set of
//! supported time zones, the typed success payload, and the error taxonomy.

use vstd::prelude::*;

verus! {

/// The closed set of time zones a request may name. Each variant maps to
/// exactly one literal identifier that is sent to the remote service;
/// `GMT0` and `Auto` are the two special values ("GMT" and "auto").
#[derive(Clone, Copy, Debug)]
pub enum TimeZone {
    AmericaAnchorage,
    AmericaLosAngeles,
    AmericaDenver,
    AmericaChicago,
    AmericaNewYork,
    AmericaSaoPaulo,
    GMT0,
    Auto,
    EuropeLondon,
    EuropeBerlin,
    EuropeMoscow,
    AfricaCairo,
    AsiaBangkok,
    AsiaSingapore,
    AsiaTokyo,
    AustraliaSydney,
    PacificAuckland,
}

impl TimeZone {
    /// The characters of the identifier that stands for this zone in a
    /// request (with `/` already percent-encoded).
    pub open spec fn label(self) -> Seq<char> {
        match self {
            TimeZone::AmericaAnchorage => "America%2FAnchorage"@,
            TimeZone::AmericaLosAngeles => "America%2FLos_Angeles"@,
            TimeZone::AmericaDenver => "America%2FDenver"@,
            TimeZone::AmericaChicago => "America%2FChicago"@,
            TimeZone::AmericaNewYork => "America%2FNew_York"@,
            TimeZone::AmericaSaoPaulo => "America%2FSao_Paulo"@,
            TimeZone::GMT0 => "GMT"@,
            TimeZone::Auto => "auto"@,
            TimeZone::EuropeLondon => "Europe%2FLondon"@,
            TimeZone::EuropeBerlin => "Europe%2FBerlin"@,
            TimeZone::EuropeMoscow => "Europe%2FMoscow"@,
            TimeZone::AfricaCairo => "Africa%2FCairo"@,
            TimeZone::AsiaBangkok => "Asia%2FBangkok"@,
            TimeZone::AsiaSingapore => "Asia%2FSingapore"@,
            TimeZone::AsiaTokyo => "Asia%2FTokyo"@,
            TimeZone::AustraliaSydney => "Australia%2FSydney"@,
            TimeZone::PacificAuckland => "Pacific%2FAuckland"@,
        }
    }

    /// The identifier itself, for appending to a request.
    pub fn text(self) -> (r: &'static str)
        ensures
            r@ == self.label(),
    {
        match self {
            TimeZone::AmericaAnchorage => "America%2FAnchorage",
            TimeZone::AmericaLosAngeles => "America%2FLos_Angeles",
            TimeZone::AmericaDenver => "America%2FDenver",
            TimeZone::AmericaChicago => "America%2FChicago",
            TimeZone::AmericaNewYork => "America%2FNew_York",
            TimeZone::AmericaSaoPaulo => "America%2FSao_Paulo",
            TimeZone::GMT0 => "GMT",
            TimeZone::Auto => "auto",
            TimeZone::EuropeLondon => "Europe%2FLondon",
            TimeZone::EuropeBerlin => "Europe%2FBerlin",
            TimeZone::EuropeMoscow => "Europe%2FMoscow",
            TimeZone::AfricaCairo => "Africa%2FCairo",
            TimeZone::AsiaBangkok => "Asia%2FBangkok",
            TimeZone::AsiaSingapore => "Asia%2FSingapore",
            TimeZone::AsiaTokyo => "Asia%2FTokyo",
            TimeZone::AustraliaSydney => "Australia%2FSydney",
            TimeZone::PacificAuckland => "Pacific%2FAuckland",
        }
    }
}

/// Everything that can go wrong while assembling or running a query.
///
/// The first three variants are configuration errors found before any
/// network call; the next three arise while resolving a place name; the
/// last two classify the weather service's response.
#[derive(Clone, Debug, PartialEq, Eq)]
pub enum ApiError {
    /// The option was already set once in this builder chain.
    AlreadySet,
    /// A location-dependent option was used before coordinates were fixed.
    LocationNotSet,
    /// Daily variables were requested before a time zone was set.
    TimeZoneNotSet,
    /// The geocoding call failed at the transport level or with a bad status.
    LookupFailed,
    /// The geocoding call returned an empty candidate list.
    NoMatch,
    /// The geocoding response could not be read as coordinates.
    ParseFailed,
    /// The weather service understood the request and declined it,
    /// with its own reason text.
    RemoteRejected(String),
    /// The response body matched neither the success nor the error schema.
    MalformedResponse,
}

/// The current-conditions block of a successful response. Numeric fields
/// carry the decimal text of the value as the service sent it.
#[derive(Clone, Debug, PartialEq, Eq)]
pub struct CurrentWeather {
    pub temperature: String,
    pub windspeed: String,
    pub weathercode: String,
    pub time: String,
}

/// One per-variable sequence of readings from an hourly or daily block:
/// one slot per hour or per day, `None` where the service has no value.
/// Numeric readings carry their decimal text; the `time` variable carries
/// its timestamps the same way.
#[derive(Clone, Debug, PartialEq, Eq)]
pub struct Series {
    pub name: String,
    pub values: Vec<Option<String>>,
}

/// A successful response: optional current conditions, optional hourly and
/// daily blocks (each a list of parallel series), and optional unit-label
/// blocks naming the unit of each variable.
#[derive(Clone, Debug, PartialEq, Eq)]
pub struct WeatherData {
    pub latitude: String,
    pub longitude: String,
    pub current_weather: Option<CurrentWeather>,
    pub hourly_units: Option<Vec<(String, String)>>,
    pub hourly: Option<Vec<Series>>,
    pub daily_units: Option<Vec<(String, String)>>,
    pub daily: Option<Vec<Series>>,
}

} // verus!
