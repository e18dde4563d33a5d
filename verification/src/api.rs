//! The forecast fetcher: from what came of the exchange with the upstream
//! provider to a response or an error.
//!
//! The exchange itself is the caller's: it sends one GET to
//! `request_url(..)`, bounded by `REQUEST_TIMEOUT_SECONDS`, and hands what
//! came of it to `fetch_weather`.

use vstd::prelude::*;
use crate::error::result_value;
use crate::error::WeatherError;
use crate::error::WeatherErrorView;
use crate::forecast::day_of;
use crate::forecast::forecast_of;
use crate::forecast::is_well_formed;
use crate::forecast::lemma_malformed_is_shape;
use crate::forecast::lemma_well_formed_is_read_in_order;
use crate::forecast::read_forecast;
use crate::json::parse;
use crate::json::parsed_document;
use crate::json::step;
use crate::json::JsonValue;
use crate::models::DailyForecastView;
use crate::models::WeatherResponse;
use crate::models::WeatherResponseView;
use crate::models::FORECAST_DAYS;

verus! {

/// The time allowed to one exchange with the upstream provider, in seconds.
pub const REQUEST_TIMEOUT_SECONDS: u64 = 5;

/// What came of one exchange with the upstream provider.
#[derive(Debug, Clone, PartialEq, Eq)]
pub enum Exchange {
    /// No answer came within the time allowed.
    TimedOut,
    /// The exchange failed on the way (name lookup, connection, TLS, a
    /// broken transfer); the text says how.
    Failed(String),
    /// The provider answered with this status and this body.
    Replied { status: u16, body: Vec<u8> },
}

/// Whether a status says that the provider served the request: 200 to 299.
pub open spec fn is_success(status: u16) -> bool {
    200 <= status <= 299
}

/// What a `Network` error says of an exchange that timed out.
pub open spec fn timed_out() -> Seq<char> {
    "upstream request timed out"@
}

/// What a fetch comes to, given what came of the exchange. A body is parsed
/// only where the status is a success.
pub open spec fn fetch_outcome(exchange: Exchange) -> Result<
    WeatherResponseView,
    WeatherErrorView,
> {
    match exchange {
        Exchange::TimedOut => Err(WeatherErrorView::Network(timed_out())),
        Exchange::Failed(detail) => Err(WeatherErrorView::Network(detail@)),
        Exchange::Replied { status, body } => if !is_success(status) {
            Err(WeatherErrorView::UpstreamStatus(status))
        } else {
            match parsed_document(body@) {
                Err(why) => Err(WeatherErrorView::Parse(why)),
                Ok(doc) => forecast_of(doc),
            }
        },
    }
}

/// Where the provider answers a success with a well-formed document, the
/// fetch gives a response with as many days as the forecast window, in the
/// order of the provider's array.
pub proof fn lemma_well_formed_reply_is_fetched(status: u16, body: Vec<u8>)
    requires
        is_success(status),
        parsed_document(body@) matches Ok(doc) && is_well_formed(doc),
    ensures
        ({
            &&& fetch_outcome(Exchange::Replied { status, body }) matches Ok(response)
            &&& response.is_complete()
            &&& step(parsed_document(body@)->Ok_0.member("forecast"@), "forecastday"@) matches Some(
                JsonValue::Array(entries),
            )
            &&& forall|i: int|
                0 <= i < FORECAST_DAYS ==> day_of(#[trigger] entries[i], i as nat) == Ok::<
                    DailyForecastView,
                    WeatherErrorView,
                >(response.daily_forecast[i])
        }),
{
    lemma_well_formed_is_read_in_order(parsed_document(body@)->Ok_0);
}

/// Where the provider answers a success with a JSON document that is not
/// well formed, one that lacks any of the seven required fields among them,
/// the fetch gives a `Shape` error.
pub proof fn lemma_malformed_reply_is_shape(status: u16, body: Vec<u8>)
    requires
        is_success(status),
        parsed_document(body@) matches Ok(doc) && !is_well_formed(doc),
    ensures
        fetch_outcome(Exchange::Replied { status, body }) matches Err(error) && error is Shape,
{
    lemma_malformed_is_shape(parsed_document(body@)->Ok_0);
}

/// Where the provider answers with a status that is no success, the fetch
/// gives an `UpstreamStatus` error with that status, whatever the body holds:
/// the body is not parsed.
pub proof fn lemma_refusal_is_not_parsed(status: u16, body: Vec<u8>)
    requires
        !is_success(status),
    ensures
        fetch_outcome(Exchange::Replied { status, body }) == Err::<
            WeatherResponseView,
            WeatherErrorView,
        >(WeatherErrorView::UpstreamStatus(status)),
{
}

/// Where the exchange fails on the way or times out, the fetch gives a
/// `Network` error.
pub proof fn lemma_broken_exchange_is_network(exchange: Exchange)
    requires
        exchange is Failed || exchange is TimedOut,
    ensures
        fetch_outcome(exchange) matches Err(error) && error is Network,
{
}

/// Whether a status says that the provider served the request.
pub fn status_is_success(status: u16) -> (yes: bool)
    ensures
        yes == is_success(status),
{
    200 <= status && status <= 299
}

/// Completes a fetch: turns what came of the exchange into the response, or
/// into the error that says why there is none.
pub fn fetch_weather(exchange: Exchange) -> (r: Result<WeatherResponse, WeatherError>)
    ensures
        result_value(r) == fetch_outcome(exchange),
        r matches Ok(response) ==> response.is_complete(),
{
    match exchange {
        Exchange::TimedOut => Err(WeatherError::Network("upstream request timed out".to_owned())),
        Exchange::Failed(detail) => Err(WeatherError::Network(detail)),
        Exchange::Replied { status, body } => {
            if !status_is_success(status) {
                return Err(WeatherError::UpstreamStatus(status));
            }
            match parse(body.as_slice()) {
                Err(error) => Err(error),
                Ok(doc) => read_forecast(&doc),
            }
        },
    }
}

} // verus!
