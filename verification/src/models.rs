//! What the service answers with: the current weather of a place and the
//! forecast for the days ahead.

use vstd::prelude::*;

verus! {

/// The number of days of forecast that are asked of the upstream provider,
/// and that every response carries.
pub const FORECAST_DAYS: usize = 7;

/// A temperature in degrees Celsius: a double-precision float, held as its
/// IEEE 754 bit pattern.
#[derive(Debug, Clone, Copy, PartialEq, Eq)]
pub struct Celsius {
    pub bits: u64,
}

/// The forecast for one day.
#[derive(Debug, Clone, PartialEq, Eq)]
pub struct DailyForecast {
    pub date: String,
    pub max_temp_c: Celsius,
    pub min_temp_c: Celsius,
    pub condition: String,
}

/// The current weather of a place, and the forecast for the days ahead.
#[derive(Debug, Clone, PartialEq, Eq)]
pub struct WeatherResponse {
    /// The name of the place, as the provider resolved it.
    pub location: String,
    pub temp_c: Celsius,
    pub condition: String,
    /// One entry per day, in the order in which the provider gave them.
    pub daily_forecast: Vec<DailyForecast>,
}

/// The mathematical value of a `DailyForecast`.
pub struct DailyForecastView {
    pub date: Seq<char>,
    pub max_temp_c: Celsius,
    pub min_temp_c: Celsius,
    pub condition: Seq<char>,
}

/// The mathematical value of a `WeatherResponse`.
pub struct WeatherResponseView {
    pub location: Seq<char>,
    pub temp_c: Celsius,
    pub condition: Seq<char>,
    pub daily_forecast: Seq<DailyForecastView>,
}

impl View for DailyForecast {
    type V = DailyForecastView;

    open spec fn view(&self) -> DailyForecastView {
        DailyForecastView {
            date: self.date@,
            max_temp_c: self.max_temp_c,
            min_temp_c: self.min_temp_c,
            condition: self.condition@,
        }
    }
}

impl View for WeatherResponse {
    type V = WeatherResponseView;

    open spec fn view(&self) -> WeatherResponseView {
        WeatherResponseView {
            location: self.location@,
            temp_c: self.temp_c,
            condition: self.condition@,
            daily_forecast: self.daily_forecast@.map_values(|day: DailyForecast| day@),
        }
    }
}

impl WeatherResponseView {
    /// A response is complete when it carries the full forecast window.
    pub open spec fn is_complete(self) -> bool {
        self.daily_forecast.len() == FORECAST_DAYS
    }
}

impl WeatherResponse {
    /// A response is complete when it carries the full forecast window.
    pub open spec fn is_complete(&self) -> bool {
        self@.is_complete()
    }

    /// Whether this response carries the full forecast window.
    pub fn has_full_window(&self) -> (full: bool)
        ensures
            full == self.is_complete(),
    {
        self.daily_forecast.len() == FORECAST_DAYS
    }
}

} // verus!
