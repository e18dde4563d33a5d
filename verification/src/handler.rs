//! The request handler's decisions: whether to fetch at all, and what to
//! answer once the fetch is over.

use vstd::prelude::*;
use vstd::string::StringExecFns;
use crate::error::WeatherError;
use crate::error::WeatherErrorView;
use crate::models::WeatherResponse;

verus! {

/// The body of the answer to a request that names no location.
pub const BAD_REQUEST_BODY: &'static str =
    "{\"error\":\"the query parameter `location` is required\"}";

/// What is answered to one request.
#[derive(Debug, Clone, PartialEq, Eq)]
pub enum Reply {
    /// Status 200, with the response as the JSON body.
    Forecast(WeatherResponse),
    /// Status 400, with `BAD_REQUEST_BODY` as the JSON body.
    BadRequest,
    /// Status 500, with an empty body: nothing of the failure is told to the
    /// caller.
    Failure,
}

impl Reply {
    /// The HTTP status of this reply.
    pub open spec fn status_code(self) -> u16 {
        match self {
            Reply::Forecast(_) => 200,
            Reply::BadRequest => 400,
            Reply::Failure => 500,
        }
    }

    /// The HTTP status of this reply.
    pub fn status(&self) -> (code: u16)
        ensures
            code == self.status_code(),
    {
        match self {
            Reply::Forecast(_) => 200,
            Reply::BadRequest => 400,
            Reply::Failure => 500,
        }
    }
}

/// How a request ends: the reply, and the line to write to the log at error
/// severity, if there is one.
#[derive(Debug, Clone, PartialEq, Eq)]
pub struct Outcome {
    pub reply: Reply,
    pub log: Option<String>,
}

/// The line that records a failed request: the location that was asked for,
/// and why no forecast came of it.
pub open spec fn failure_line(location: Seq<char>, error: WeatherErrorView) -> Seq<char> {
    "API error for location "@ + location + ": "@ + error.message()
}

/// Decides whether to fetch, given the request's `location` parameter: where
/// it is there and not empty, the location to fetch the forecast of; else the
/// reply to send at once, `Reply::BadRequest`.
pub fn accept_request<'a>(location: Option<&'a str>) -> (r: Result<&'a str, Reply>)
    ensures
        match location {
            Some(place) if place@.len() > 0 => r == Ok::<&str, Reply>(place),
            _ => r == Err::<&str, Reply>(Reply::BadRequest),
        },
{
    match location {
        Some(place) => {
            if place.is_empty() {
                Err(Reply::BadRequest)
            } else {
                Ok(place)
            }
        },
        None => Err(Reply::BadRequest),
    }
}

/// Decides how a request for `location` ends, given what the fetch came to.
///
/// A fetch that succeeded is answered with its response, and nothing is
/// logged. A fetch that failed is answered with `Reply::Failure`, which tells
/// the caller nothing of the failure, and exactly one line is logged.
pub fn conclude_request(location: &str, fetched: Result<WeatherResponse, WeatherError>) -> (outcome:
    Outcome)
    ensures
        match fetched {
            Ok(response) => {
                &&& outcome.reply == Reply::Forecast(response)
                &&& outcome.log is None
            },
            Err(error) => {
                &&& outcome.reply == Reply::Failure
                &&& outcome.log matches Some(line)
                &&& line@ == failure_line(location@, error@)
            },
        },
{
    match fetched {
        Ok(response) => Outcome { reply: Reply::Forecast(response), log: None },
        Err(error) => {
            let mut line = "API error for location ".to_owned();
            line.append(location);
            line.append(": ");
            line.append(error.message().as_str());
            Outcome { reply: Reply::Failure, log: Some(line) }
        },
    }
}

} // verus!
