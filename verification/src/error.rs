//! The ways in which fetching a forecast can fail.

use vstd::prelude::*;
use vstd::string::StringExecFns;
use crate::text::decimal_digits;
use crate::text::push_decimal;

verus! {

/// Why a forecast could not be produced.
#[derive(Debug, Clone, PartialEq, Eq)]
pub enum WeatherError {
    /// The exchange with the upstream provider did not complete; the text
    /// says what went wrong.
    Network(String),
    /// The upstream provider answered with this status, which is not a
    /// success.
    UpstreamStatus(u16),
    /// The upstream body is not JSON; the text is the parser's complaint.
    Parse(String),
    /// The upstream body is JSON of the wrong shape: the path of the
    /// offending field, then what is wrong with it.
    Shape(String, String),
}

/// A `WeatherError` with its texts as sequences of characters.
pub enum WeatherErrorView {
    Network(Seq<char>),
    UpstreamStatus(u16),
    Parse(Seq<char>),
    Shape(Seq<char>, Seq<char>),
}

impl View for WeatherError {
    type V = WeatherErrorView;

    open spec fn view(&self) -> WeatherErrorView {
        match self {
            WeatherError::Network(detail) => WeatherErrorView::Network(detail@),
            WeatherError::UpstreamStatus(status) => WeatherErrorView::UpstreamStatus(*status),
            WeatherError::Parse(detail) => WeatherErrorView::Parse(detail@),
            WeatherError::Shape(path, detail) => WeatherErrorView::Shape(path@, detail@),
        }
    }
}

/// The mathematical value of a result that may fail with a `WeatherError`.
pub open spec fn result_value<T: View>(r: Result<T, WeatherError>) -> Result<
    T::V,
    WeatherErrorView,
> {
    match r {
        Ok(value) => Ok(value@),
        Err(error) => Err(error@),
    }
}

impl WeatherErrorView {
    /// What went wrong, in a few words.
    pub open spec fn detail(self) -> Seq<char> {
        match self {
            WeatherErrorView::Network(detail) => detail,
            WeatherErrorView::UpstreamStatus(status) => "upstream responded with status "@
                + decimal_digits(status as nat),
            WeatherErrorView::Parse(detail) => "response is not JSON: "@ + detail,
            WeatherErrorView::Shape(path, detail) => "unexpected response at "@ + path + ": "@
                + detail,
        }
    }

    /// The sentence that describes this error to an operator.
    pub open spec fn message(self) -> Seq<char> {
        "Failed to fetch weather data: "@ + self.detail()
    }
}

impl WeatherError {
    /// The sentence that describes this error to an operator.
    pub fn message(&self) -> (text: String)
        ensures
            text@ == self@.message(),
    {
        let mut text = "Failed to fetch weather data: ".to_owned();
        match self {
            WeatherError::Network(detail) => {
                text.append(detail.as_str());
            },
            WeatherError::UpstreamStatus(status) => {
                text.append("upstream responded with status ");
                push_decimal(&mut text, *status as u64);
            },
            WeatherError::Parse(detail) => {
                text.append("response is not JSON: ");
                text.append(detail.as_str());
            },
            WeatherError::Shape(path, detail) => {
                text.append("unexpected response at ");
                text.append(path.as_str());
                text.append(": ");
                text.append(detail.as_str());
            },
        }
        text
    }
}

} // verus!
