//! The builder's guarantees across whole chains of calls, proved once over
//! the transition relation [`crate::query::step_result`]: a once-only
//! option refuses a second setting whatever happened in between, a
//! location-dependent step is refused until a location is fixed, and
//! daily variables are refused until a time zone is fixed.

use vstd::prelude::*;

use crate::decode::{
    current_block_of, geo_candidates_of, response_outcome, series_block_of, units_block_of,
    weather_shell_of,
};
use crate::models::{ApiError, CurrentWeather, Series, TimeZone};
use crate::query::{
    coordinate_text, initial_state, resolve_outcome, step_result, BuilderState, ConfigStep,
};

verus! {

/// The once-only options a step can fix.
pub enum OnceOption {
    Location,
    Zone,
    StartOfRange,
    EndOfRange,
}

/// Which once-only option a step fixes, if any.
pub open spec fn fixed_option(s: ConfigStep) -> Option<OnceOption> {
    match s {
        ConfigStep::Coordinates { .. } => Some(OnceOption::Location),
        ConfigStep::ZoneChoice { .. } => Some(OnceOption::Zone),
        ConfigStep::StartDate { .. } => Some(OnceOption::StartOfRange),
        ConfigStep::EndDate { .. } => Some(OnceOption::EndOfRange),
        _ => None,
    }
}

/// Whether a state records the given option as set.
pub open spec fn option_is_set(b: BuilderState, k: OnceOption) -> bool {
    match k {
        OnceOption::Location => b.location_set,
        OnceOption::Zone => b.time_zone_set,
        OnceOption::StartOfRange => b.start_date_set,
        OnceOption::EndOfRange => b.end_date_set,
    }
}

/// The steps whose validity needs coordinates already fixed.
pub open spec fn location_dependent(s: ConfigStep) -> bool {
    ||| s matches ConfigStep::StartDate { .. }
    ||| s matches ConfigStep::EndDate { .. }
    ||| s matches ConfigStep::CurrentConditions
    ||| s matches ConfigStep::PastDays { .. }
    ||| s matches ConfigStep::ForecastDays { .. }
}

/// States a chain can reach from a fresh builder: a date flag is only
/// ever set after the location flag.
pub open spec fn state_inv(b: BuilderState) -> bool {
    (b.start_date_set || b.end_date_set) ==> b.location_set
}

/// A whole chain of configuration steps, stopped at its first error.
pub open spec fn chain_result(b: BuilderState, steps: Seq<ConfigStep>) -> Result<
    BuilderState,
    ApiError,
>
    decreases steps.len(),
{
    if steps.len() == 0 {
        Ok(b)
    } else {
        match step_result(b, steps[0]) {
            Ok(nb) => chain_result(nb, steps.skip(1)),
            Err(e) => Err(e),
        }
    }
}

/// A flag once set is never cleared by a successful step.
pub proof fn lemma_step_keeps_set_options(b: BuilderState, s: ConfigStep)
    ensures
        step_result(b, s) matches Ok(nb) ==> {
            &&& b.location_set ==> nb.location_set
            &&& b.time_zone_set ==> nb.time_zone_set
            &&& b.start_date_set ==> nb.start_date_set
            &&& b.end_date_set ==> nb.end_date_set
        },
{
}

/// A flag once set is never cleared by a successful chain.
pub proof fn lemma_chain_keeps_set_options(b: BuilderState, steps: Seq<ConfigStep>)
    ensures
        chain_result(b, steps) matches Ok(nb) ==> {
            &&& b.location_set ==> nb.location_set
            &&& b.time_zone_set ==> nb.time_zone_set
            &&& b.start_date_set ==> nb.start_date_set
            &&& b.end_date_set ==> nb.end_date_set
        },
    decreases steps.len(),
{
    if steps.len() > 0 {
        match step_result(b, steps[0]) {
            Ok(nb) => {
                lemma_step_keeps_set_options(b, steps[0]);
                lemma_chain_keeps_set_options(nb, steps.skip(1));
            },
            Err(_) => {},
        }
    }
}

/// A successful step that fixes an option leaves that option set.
pub proof fn lemma_step_sets_option(b: BuilderState, s: ConfigStep, k: OnceOption)
    requires
        fixed_option(s) == Some(k),
    ensures
        step_result(b, s) matches Ok(nb) ==> option_is_set(nb, k),
{
}

/// A step that fixes an already-set option is refused with `AlreadySet`.
pub proof fn lemma_set_option_refused(b: BuilderState, s: ConfigStep, k: OnceOption)
    requires
        fixed_option(s) == Some(k),
        option_is_set(b, k),
    ensures
        step_result(b, s) == Err::<BuilderState, ApiError>(ApiError::AlreadySet),
{
}

/// Setting the same once-only option twice — coordinates, time zone,
/// start date or end date — yields `AlreadySet` on the second attempt,
/// regardless of what other steps were taken successfully in between.
pub proof fn lemma_same_option_twice_already_set(
    b: BuilderState,
    first: ConfigStep,
    mid: Seq<ConfigStep>,
    second: ConfigStep,
)
    requires
        fixed_option(first) is Some,
        fixed_option(second) == fixed_option(first),
        step_result(b, first) is Ok,
        chain_result(step_result(b, first).unwrap(), mid) is Ok,
    ensures
        step_result(chain_result(step_result(b, first).unwrap(), mid).unwrap(), second)
            == Err::<BuilderState, ApiError>(ApiError::AlreadySet),
{
    let k = fixed_option(first).unwrap();
    let b1 = step_result(b, first).unwrap();
    let b2 = chain_result(b1, mid).unwrap();
    lemma_step_sets_option(b, first, k);
    lemma_chain_keeps_set_options(b1, mid);
    lemma_set_option_refused(b2, second, k);
}

/// A fresh builder satisfies the reachable-state invariant.
pub proof fn lemma_initial_state_inv()
    ensures
        state_inv(initial_state()),
{
}

/// Every successful step preserves the reachable-state invariant.
pub proof fn lemma_step_keeps_inv(b: BuilderState, s: ConfigStep)
    requires
        state_inv(b),
    ensures
        step_result(b, s) matches Ok(nb) ==> state_inv(nb),
{
}

/// Every successful chain preserves the reachable-state invariant.
pub proof fn lemma_chain_keeps_inv(b: BuilderState, steps: Seq<ConfigStep>)
    requires
        state_inv(b),
    ensures
        chain_result(b, steps) matches Ok(nb) ==> state_inv(nb),
    decreases steps.len(),
{
    if steps.len() > 0 {
        match step_result(b, steps[0]) {
            Ok(nb) => {
                lemma_step_keeps_inv(b, steps[0]);
                lemma_chain_keeps_inv(nb, steps.skip(1));
            },
            Err(_) => {},
        }
    }
}

/// In any reachable state without a location, every location-dependent
/// step is refused with `LocationNotSet`.
pub proof fn lemma_location_dependent_needs_location(b: BuilderState, s: ConfigStep)
    requires
        state_inv(b),
        !b.location_set,
        location_dependent(s),
    ensures
        step_result(b, s) == Err::<BuilderState, ApiError>(ApiError::LocationNotSet),
{
}

/// Daily variables need a time zone: without one the step is refused
/// with `TimeZoneNotSet`, and once a time zone is set — in particular
/// right after a successful time-zone step — it succeeds.
pub proof fn lemma_daily_needs_time_zone(b: BuilderState, zone: TimeZone)
    ensures
        !b.time_zone_set ==> step_result(b, ConfigStep::DailyAll) == Err::<
            BuilderState,
            ApiError,
        >(ApiError::TimeZoneNotSet),
        b.time_zone_set ==> step_result(b, ConfigStep::DailyAll) is Ok,
        step_result(b, ConfigStep::ZoneChoice { zone }) matches Ok(nb) ==> step_result(
            nb,
            ConfigStep::DailyAll,
        ) is Ok,
{
}

/// A geocoding body with zero candidates resolves to `NoMatch`; one with
/// at least one interpretable candidate resolves to that candidate's
/// coordinates and marks the location as set — unless a location was
/// already fixed, in which case the second fixing is `AlreadySet`.
pub proof fn lemma_resolve_outcome(b: BuilderState, body: Seq<char>)
    ensures
        geo_candidates_of(body) matches Some(cands) ==> {
            &&& cands@.len() == 0 ==> resolve_outcome(b, body) == Err::<
                BuilderState,
                ApiError,
            >(ApiError::NoMatch)
            &&& cands@.len() > 0 ==> (cands@[0] matches Some(c) ==> {
                &&& (coordinate_text(c.0@) && coordinate_text(c.1@) && !b.location_set) ==> (
                resolve_outcome(b, body) matches Ok(nb) && nb.location_set)
                &&& (coordinate_text(c.0@) && coordinate_text(c.1@) && b.location_set)
                    ==> resolve_outcome(b, body) == Err::<
                    BuilderState,
                    ApiError,
                >(ApiError::AlreadySet)
            })
        },
{
}


/// A minimal valid success body — the mandatory shell present, every
/// optional block absent — decodes to a success with no optional blocks
/// populated.
pub proof fn lemma_minimal_success_has_no_blocks(body: Seq<char>)
    requires
        weather_shell_of(body) is Some,
        current_block_of(body) == Some(None::<CurrentWeather>),
        series_block_of(body, "hourly"@) == Some(None::<Vec<Series>>),
        units_block_of(body, "hourly_units"@) == Some(None::<Vec<(String, String)>>),
        series_block_of(body, "daily"@) == Some(None::<Vec<Series>>),
        units_block_of(body, "daily_units"@) == Some(None::<Vec<(String, String)>>),
    ensures
        (response_outcome(body) matches Ok(d) && {
            &&& d.current_weather is None
            &&& d.hourly is None
            &&& d.hourly_units is None
            &&& d.daily is None
            &&& d.daily_units is None
        }),
{
}

} // verus!

