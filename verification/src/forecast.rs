//! Reading a forecast out of the upstream provider's JSON document.
//!
//! The provider's document holds `location.name`, `current.temp_c`,
//! `current.condition.text`, and under `forecast.forecastday` one entry per
//! day with `date`, `day.maxtemp_c`, `day.mintemp_c` and
//! `day.condition.text`. Every one of them is required: a document that lacks
//! one, or holds a value of another type there, gives a `Shape` error that
//! names the field.

use vstd::prelude::*;
use vstd::string::StringExecFns;
use crate::error::result_value;
use crate::error::WeatherError;
use crate::error::WeatherErrorView;
use crate::json::array_in;
use crate::json::descend;
use crate::json::number_in;
use crate::json::read_array;
use crate::json::read_number;
use crate::json::read_text;
use crate::json::step;
use crate::json::text_in;
use crate::json::Json;
use crate::json::JsonValue;
use crate::models::Celsius;
use crate::models::DailyForecast;
use crate::models::DailyForecastView;
use crate::models::WeatherResponse;
use crate::models::WeatherResponseView;
use crate::models::FORECAST_DAYS;
use crate::text::decimal_digits;
use crate::text::push_decimal;

verus! {

/// The path of the array of days.
pub open spec fn days_path() -> Seq<char> {
    "forecast.forecastday"@
}

/// What is reported of an array of days that holds `found` entries, which is
/// not the length of the forecast window.
pub open spec fn wrong_length(found: nat) -> Seq<char> {
    "expected "@ + decimal_digits(FORECAST_DAYS as nat) + " entries, found "@ + decimal_digits(
        found,
    )
}

/// The path of `field` in the day at `index`.
pub open spec fn day_path(index: nat, field: Seq<char>) -> Seq<char> {
    "forecast.forecastday["@ + decimal_digits(index) + "]."@ + field
}

/// The forecast that the entry at `index` holds, or the first thing that is
/// wrong with it, its fields taken in the order `date`, `day.maxtemp_c`,
/// `day.mintemp_c`, `day.condition.text`.
pub open spec fn day_of(entry: JsonValue, index: nat) -> Result<
    DailyForecastView,
    WeatherErrorView,
> {
    let day = entry.member("day"@);
    match text_in(entry.member("date"@)) {
        Err(fault) => Err(WeatherErrorView::Shape(day_path(index, "date"@), fault)),
        Ok(date) => match number_in(step(day, "maxtemp_c"@)) {
            Err(fault) => Err(WeatherErrorView::Shape(day_path(index, "day.maxtemp_c"@), fault)),
            Ok(max) => match number_in(step(day, "mintemp_c"@)) {
                Err(fault) => Err(
                    WeatherErrorView::Shape(day_path(index, "day.mintemp_c"@), fault),
                ),
                Ok(min) => match text_in(step(step(day, "condition"@), "text"@)) {
                    Err(fault) => Err(
                        WeatherErrorView::Shape(day_path(index, "day.condition.text"@), fault),
                    ),
                    Ok(condition) => Ok(
                        DailyForecastView {
                            date,
                            max_temp_c: Celsius { bits: max },
                            min_temp_c: Celsius { bits: min },
                            condition,
                        },
                    ),
                },
            },
        },
    }
}

/// The forecasts that `entries` hold, in the same order, or what is wrong
/// with the first entry that has something wrong.
pub open spec fn days_of(entries: Seq<JsonValue>) -> Result<
    Seq<DailyForecastView>,
    WeatherErrorView,
>
    decreases entries.len(),
{
    if entries.len() == 0 {
        Ok(Seq::empty())
    } else {
        match days_of(entries.drop_last()) {
            Err(error) => Err(error),
            Ok(days) => match day_of(entries.last(), (entries.len() - 1) as nat) {
                Err(error) => Err(error),
                Ok(day) => Ok(days.push(day)),
            },
        }
    }
}

/// The response that a provider's document holds, or the first thing that is
/// wrong with it. The array of days is looked at first, then each day in
/// turn, then `location.name`, `current.temp_c` and `current.condition.text`.
pub open spec fn forecast_of(doc: JsonValue) -> Result<WeatherResponseView, WeatherErrorView> {
    let current = doc.member("current"@);
    match array_in(step(doc.member("forecast"@), "forecastday"@)) {
        Err(fault) => Err(WeatherErrorView::Shape(days_path(), fault)),
        Ok(entries) => if entries.len() != FORECAST_DAYS {
            Err(WeatherErrorView::Shape(days_path(), wrong_length(entries.len())))
        } else {
            match days_of(entries) {
                Err(error) => Err(error),
                Ok(days) => match text_in(step(doc.member("location"@), "name"@)) {
                    Err(fault) => Err(WeatherErrorView::Shape("location.name"@, fault)),
                    Ok(location) => match number_in(step(current, "temp_c"@)) {
                        Err(fault) => Err(WeatherErrorView::Shape("current.temp_c"@, fault)),
                        Ok(temp) => match text_in(step(step(current, "condition"@), "text"@)) {
                            Err(fault) => Err(
                                WeatherErrorView::Shape("current.condition.text"@, fault),
                            ),
                            Ok(condition) => Ok(
                                WeatherResponseView {
                                    location,
                                    temp_c: Celsius { bits: temp },
                                    condition,
                                    daily_forecast: days,
                                },
                            ),
                        },
                    },
                },
            }
        },
    }
}

/// Once a prefix of the entries has something wrong, so has the whole, and
/// it is the same thing.
pub proof fn lemma_days_fault_persists(entries: Seq<JsonValue>, k: int)
    requires
        0 <= k <= entries.len(),
        days_of(entries.take(k)) is Err,
    ensures
        days_of(entries) == days_of(entries.take(k)),
    decreases entries.len() - k,
{
    if k == entries.len() {
        assert(entries.take(k) =~= entries);
    } else {
        assert(entries.drop_last().take(k) =~= entries.take(k));
        lemma_days_fault_persists(entries.drop_last(), k);
    }
}

/// Whether a field is there and holds a string.
pub open spec fn holds_text(found: Option<JsonValue>) -> bool {
    found matches Some(JsonValue::Text(_))
}

/// Whether a field is there and holds a number.
pub open spec fn holds_number(found: Option<JsonValue>) -> bool {
    found matches Some(JsonValue::Number(Some(_)))
}

/// Whether an entry of the array of days has each of its four required
/// fields, with a value of the right type.
pub open spec fn day_is_well_formed(entry: JsonValue) -> bool {
    &&& holds_text(entry.member("date"@))
    &&& holds_number(step(entry.member("day"@), "maxtemp_c"@))
    &&& holds_number(step(entry.member("day"@), "mintemp_c"@))
    &&& holds_text(step(step(entry.member("day"@), "condition"@), "text"@))
}

/// Whether a provider's document is well formed: it has each of its required
/// fields, with a value of the right type, and as many days as the forecast
/// window.
pub open spec fn is_well_formed(doc: JsonValue) -> bool {
    &&& holds_text(step(doc.member("location"@), "name"@))
    &&& holds_number(step(doc.member("current"@), "temp_c"@))
    &&& holds_text(step(step(doc.member("current"@), "condition"@), "text"@))
    &&& step(doc.member("forecast"@), "forecastday"@) matches Some(JsonValue::Array(entries))
    &&& entries.len() == FORECAST_DAYS
    &&& forall|i: int| 0 <= i < entries.len() ==> day_is_well_formed(#[trigger] entries[i])
}

/// A day is read exactly when its entry is well formed; what else comes of
/// it is a `Shape` error.
pub proof fn lemma_day_is_read_or_shape(entry: JsonValue, index: nat)
    ensures
        day_of(entry, index) is Ok <==> day_is_well_formed(entry),
        day_of(entry, index) matches Err(error) ==> error is Shape,
{
}

/// The days are read exactly when every entry is well formed, and then
/// there is one day per entry, in the entries' order: the day at `i` is what
/// the entry at `i` holds. What else comes of them is a `Shape` error.
pub proof fn lemma_days_keep_their_order(entries: Seq<JsonValue>)
    ensures
        days_of(entries) is Ok <==> forall|i: int|
            0 <= i < entries.len() ==> day_is_well_formed(#[trigger] entries[i]),
        days_of(entries) matches Ok(days) ==> {
            &&& days.len() == entries.len()
            &&& forall|i: int|
                0 <= i < entries.len() ==> day_of(#[trigger] entries[i], i as nat) == Ok::<
                    DailyForecastView,
                    WeatherErrorView,
                >(days[i])
        },
        days_of(entries) matches Err(error) ==> error is Shape,
    decreases entries.len(),
{
    if entries.len() > 0 {
        let front = entries.drop_last();
        let last = (entries.len() - 1) as nat;
        lemma_days_keep_their_order(front);
        lemma_day_is_read_or_shape(entries.last(), last);
        assert(forall|i: int| 0 <= i < front.len() ==> front[i] == entries[i]);
        if days_of(entries) is Ok {
            assert forall|i: int| 0 <= i < entries.len() implies day_is_well_formed(
                #[trigger] entries[i],
            ) by {
                if i < front.len() {
                    assert(day_is_well_formed(front[i]));
                }
            }
        }
        if forall|i: int| 0 <= i < entries.len() ==> day_is_well_formed(#[trigger] entries[i]) {
            assert forall|i: int| 0 <= i < front.len() implies day_is_well_formed(
                #[trigger] front[i],
            ) by {
                assert(day_is_well_formed(entries[i]));
            }
            assert(day_is_well_formed(entries[last as int]));
        }
    }
}

/// A well-formed document is read: its forecast has as many days as the
/// forecast window, and they stand in the order of the provider's array, the
/// day at `i` being what the array's entry at `i` holds.
pub proof fn lemma_well_formed_is_read_in_order(doc: JsonValue)
    requires
        is_well_formed(doc),
    ensures
        ({
            &&& forecast_of(doc) matches Ok(response)
            &&& response.is_complete()
            &&& step(doc.member("forecast"@), "forecastday"@) matches Some(
                JsonValue::Array(entries),
            )
            &&& forall|i: int|
                0 <= i < FORECAST_DAYS ==> day_of(#[trigger] entries[i], i as nat) == Ok::<
                    DailyForecastView,
                    WeatherErrorView,
                >(response.daily_forecast[i])
        }),
{
    let entries = step(doc.member("forecast"@), "forecastday"@)->0->Array_0;
    lemma_days_keep_their_order(entries);
}

/// A document that is not well formed, be it for one of the seven required
/// fields or for the number of days, gives a `Shape` error; and no document
/// gives any other error.
pub proof fn lemma_malformed_is_shape(doc: JsonValue)
    ensures
        forecast_of(doc) is Ok <==> is_well_formed(doc),
        forecast_of(doc) matches Err(error) ==> error is Shape,
{
    match step(doc.member("forecast"@), "forecastday"@) {
        Some(JsonValue::Array(entries)) => {
            lemma_days_keep_their_order(entries);
        },
        _ => {},
    }
}

fn shape_fault(path: &str, fault: &str) -> (error: WeatherError)
    ensures
        error@ == WeatherErrorView::Shape(path@, fault@),
{
    WeatherError::Shape(path.to_owned(), fault.to_owned())
}

fn day_fault(index: usize, field: &str, fault: &str) -> (error: WeatherError)
    ensures
        error@ == WeatherErrorView::Shape(day_path(index as nat, field@), fault@),
{
    let mut path = "forecast.forecastday[".to_owned();
    push_decimal(&mut path, index as u64);
    path.append("].");
    path.append(field);
    WeatherError::Shape(path, fault.to_owned())
}

/// Reads the forecast of one day out of the entry at `index` of the array of
/// days.
pub fn read_day(entry: &Json, index: usize) -> (r: Result<DailyForecast, WeatherError>)
    ensures
        result_value(r) == day_of(entry@, index as nat),
{
    let day = entry.member("day");
    let date = match read_text(entry.member("date")) {
        Ok(text) => text,
        Err(fault) => {
            return Err(day_fault(index, "date", fault));
        },
    };
    let max = match read_number(descend(day, "maxtemp_c")) {
        Ok(bits) => bits,
        Err(fault) => {
            return Err(day_fault(index, "day.maxtemp_c", fault));
        },
    };
    let min = match read_number(descend(day, "mintemp_c")) {
        Ok(bits) => bits,
        Err(fault) => {
            return Err(day_fault(index, "day.mintemp_c", fault));
        },
    };
    let condition = match read_text(descend(descend(day, "condition"), "text")) {
        Ok(text) => text,
        Err(fault) => {
            return Err(day_fault(index, "day.condition.text", fault));
        },
    };
    Ok(
        DailyForecast {
            date,
            max_temp_c: Celsius { bits: max },
            min_temp_c: Celsius { bits: min },
            condition,
        },
    )
}

/// Reads the response out of a provider's document.
pub fn read_forecast(doc: &Json) -> (r: Result<WeatherResponse, WeatherError>)
    ensures
        result_value(r) == forecast_of(doc@),
        r matches Ok(response) ==> response.is_complete(),
{
    let entries = match read_array(descend(doc.member("forecast"), "forecastday")) {
        Ok(items) => items,
        Err(fault) => {
            return Err(shape_fault("forecast.forecastday", fault));
        },
    };
    if entries.len() != FORECAST_DAYS {
        let mut detail = "expected ".to_owned();
        push_decimal(&mut detail, FORECAST_DAYS as u64);
        detail.append(" entries, found ");
        push_decimal(&mut detail, entries.len() as u64);
        return Err(shape_fault("forecast.forecastday", detail.as_str()));
    }
    let ghost values = array_in(step(doc@.member("forecast"@), "forecastday"@))->Ok_0;
    let ghost value_of_day = |day: DailyForecast| day@;
    let mut days: Vec<DailyForecast> = Vec::new();
    let mut i: usize = 0;
    assert(values.take(0) =~= Seq::<JsonValue>::empty());
    assert(days@.map_values(value_of_day) =~= Seq::<DailyForecastView>::empty());
    while i < entries.len()
        invariant
            i <= entries.len(),
            entries.len() == FORECAST_DAYS,
            days.len() == i,
            array_in(step(doc@.member("forecast"@), "forecastday"@)) == Ok::<
                Seq<JsonValue>,
                Seq<char>,
            >(values),
            values.len() == entries@.len(),
            forall|k: int| 0 <= k < values.len() ==> values[k] == #[trigger] entries@[k]@,
            value_of_day == |day: DailyForecast| day@,
            days_of(values.take(i as int)) == Ok::<Seq<DailyForecastView>, WeatherErrorView>(
                days@.map_values(value_of_day),
            ),
        decreases entries.len() - i,
    {
        let ghost upto = values.take(i + 1);
        assert(upto.drop_last() =~= values.take(i as int));
        assert(upto.last() == values[i as int]);
        match read_day(&entries[i], i) {
            Ok(day) => {
                assert(days@.push(day).map_values(value_of_day) =~= days@.map_values(
                    value_of_day,
                ).push(day@));
                days.push(day);
            },
            Err(error) => {
                proof {
                    lemma_days_fault_persists(values, i + 1);
                }
                return Err(error);
            },
        }
        i += 1;
    }
    assert(values.take(i as int) =~= values);
    let current = doc.member("current");
    let location = match read_text(descend(doc.member("location"), "name")) {
        Ok(text) => text,
        Err(fault) => {
            return Err(shape_fault("location.name", fault));
        },
    };
    let temp = match read_number(descend(current, "temp_c")) {
        Ok(bits) => bits,
        Err(fault) => {
            return Err(shape_fault("current.temp_c", fault));
        },
    };
    let condition = match read_text(descend(descend(current, "condition"), "text")) {
        Ok(text) => text,
        Err(fault) => {
            return Err(shape_fault("current.condition.text", fault));
        },
    };
    Ok(
        WeatherResponse {
            location,
            temp_c: Celsius { bits: temp },
            condition,
            daily_forecast: days,
        },
    )
}

} // verus!
