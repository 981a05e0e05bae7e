//! Client-side query builder and response decoder for a weather-forecast
//! HTTP service.
//!
//! A [`query::OpenMeteo`] value accumulates a request URL step by step,
//! checking that each option is set at most once and that options which
//! depend on a location or a time zone are only set after one is fixed.
//! The [`decode`] module turns a raw response body into a typed
//! [`models::WeatherData`] record or a discriminated [`models::ApiError`].
//! The network calls themselves are left to the caller: the library only
//! builds request text and interprets response text.

pub mod decode;
pub mod laws;
pub mod models;
pub mod numtext;
pub mod query;
