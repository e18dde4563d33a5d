//! The decisions of a small weather proxy.
//!
//! The proxy answers `GET /weather?location=..` with the current weather of
//! a place and the forecast for the next seven days, which it fetches from an
//! upstream provider. This crate holds what the proxy decides and none of its
//! I/O. A server goes through it in this order:
//!
//! 1. [`handler::accept_request`] says whether the request names a location;
//! 2. [`url::request_url`] gives the address to ask the provider at;
//! 3. the server sends one GET there and records what came of it in an
//!    [`api::Exchange`];
//! 4. [`api::fetch_weather`] turns the exchange into a [`WeatherResponse`] or
//!    a [`WeatherError`], reading the provider's JSON with [`json::parse`]
//!    and [`forecast::read_forecast`];
//! 5. [`handler::conclude_request`] says what to answer and what to log.
//!
//! Temperatures are double-precision floats. They are carried as their IEEE
//! 754 bit patterns ([`models::Celsius`]) and never computed with.

pub mod api;
pub mod error;
pub mod forecast;
pub mod handler;
pub mod json;
pub mod models;
pub mod text;
pub mod url;

pub use api::fetch_weather;
pub use error::WeatherError;
pub use models::DailyForecast;
pub use models::WeatherResponse;
