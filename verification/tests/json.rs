use weather_backend::json::descend;
use weather_backend::json::parse;
use weather_backend::json::read_array;
use weather_backend::json::read_number;
use weather_backend::json::read_text;
use weather_backend::json::Json;
use weather_backend::json::Member;
use weather_backend::WeatherError;

fn number(value: f64) -> Json {
    Json::Number(Some(value.to_bits()))
}

fn text(value: &str) -> Json {
    Json::Text(String::from(value))
}

fn member(name: &str, value: Json) -> Member {
    Member { name: String::from(name), value }
}

#[test]
fn parses_scalars() {
    assert_eq!(parse(b"null"), Ok(Json::Null));
    assert_eq!(parse(b"true"), Ok(Json::Bool(true)));
    assert_eq!(parse(b"false"), Ok(Json::Bool(false)));
    assert_eq!(parse(b"\"Cloudy\""), Ok(text("Cloudy")));
    assert_eq!(parse(b"  15.5 "), Ok(number(15.5)));
}

#[test]
fn parses_integers_as_doubles() {
    assert_eq!(parse(b"15"), Ok(number(15.0)));
    assert_eq!(parse(b"-3"), Ok(number(-3.0)));
    assert_eq!(parse(b"0"), Ok(number(0.0)));
    assert_eq!(parse(b"18446744073709551615"), Ok(number(18446744073709551615.0)));
}

#[test]
fn parses_negative_zero_and_exponents() {
    assert_eq!(parse(b"-0.0"), Ok(number(-0.0)));
    assert_ne!(parse(b"-0.0"), Ok(number(0.0)));
    assert_eq!(parse(b"1e3"), Ok(number(1000.0)));
    assert_eq!(parse(b"2.5E-1"), Ok(number(0.25)));
}

#[test]
fn parses_string_escapes() {
    assert_eq!(parse(b"\"a\\n\\\"b\\\" \\u00e3\""), Ok(text("a\n\"b\" \u{e3}")));
}

#[test]
fn parses_arrays_in_order() {
    assert_eq!(
        parse(b"[1, \"two\", null, [true]]"),
        Ok(Json::Array(vec![
            number(1.0),
            text("two"),
            Json::Null,
            Json::Array(vec![Json::Bool(true)]),
        ]))
    );
    assert_eq!(parse(b"[]"), Ok(Json::Array(vec![])));
}

#[test]
fn parses_objects() {
    assert_eq!(
        parse(b"{\"name\": \"London\"}"),
        Ok(Json::Object(vec![member("name", text("London"))]))
    );
    assert_eq!(parse(b"{}"), Ok(Json::Object(vec![])));
}

#[test]
fn parses_nested_objects() {
    let doc = parse(b"{\"current\": {\"condition\": {\"text\": \"Sunny\"}, \"temp_c\": 21}}").unwrap();
    let current = doc.member("current");
    assert_eq!(descend(current, "temp_c"), Some(&number(21.0)));
    assert_eq!(descend(descend(current, "condition"), "text"), Some(&text("Sunny")));
}

#[test]
fn a_repeated_name_keeps_its_last_value() {
    let doc = parse(b"{\"a\": 1, \"b\": 2, \"a\": 3}").unwrap();
    assert_eq!(doc.member("a"), Some(&number(3.0)));
    assert_eq!(doc.member("b"), Some(&number(2.0)));
}

#[test]
fn rejects_what_is_not_json() {
    let expected = serde_json::from_slice::<serde_json::Value>(b"<html>")
        .unwrap_err()
        .to_string();
    assert_eq!(parse(b"<html>"), Err(WeatherError::Parse(expected.clone())));
    assert_eq!(expected, "expected value at line 1 column 1");
}

#[test]
fn rejects_an_empty_body() {
    let expected = serde_json::from_slice::<serde_json::Value>(b"")
        .unwrap_err()
        .to_string();
    assert_eq!(parse(b""), Err(WeatherError::Parse(expected)));
}

#[test]
fn rejects_truncated_json() {
    let body = b"{\"location\": {\"name\": \"Lon";
    let expected = serde_json::from_slice::<serde_json::Value>(body)
        .unwrap_err()
        .to_string();
    assert_eq!(parse(body), Err(WeatherError::Parse(expected)));
}

#[test]
fn rejects_trailing_characters() {
    let body = b"{} {}";
    let expected = serde_json::from_slice::<serde_json::Value>(body)
        .unwrap_err()
        .to_string();
    assert_eq!(parse(body), Err(WeatherError::Parse(expected.clone())));
    assert_eq!(expected, "trailing characters at line 1 column 4");
}

#[test]
fn rejects_bytes_that_are_not_utf8() {
    assert!(matches!(parse(b"\"\xff\""), Err(WeatherError::Parse(_))));
}

#[test]
fn rejects_json_nested_too_deeply() {
    let mut body = Vec::new();
    for _ in 0..200 {
        body.push(b'[');
    }
    for _ in 0..200 {
        body.push(b']');
    }
    assert!(matches!(parse(&body), Err(WeatherError::Parse(_))));
}

#[test]
fn member_finds_a_member_by_name() {
    let doc = Json::Object(vec![
        member("date", text("2024-01-01")),
        member("day", Json::Object(vec![])),
    ]);
    assert_eq!(doc.member("date"), Some(&text("2024-01-01")));
    assert_eq!(doc.member("day"), Some(&Json::Object(vec![])));
    assert_eq!(doc.member("hour"), None);
    assert_eq!(doc.member(""), None);
}

#[test]
fn member_takes_the_first_of_two_with_one_name() {
    let doc = Json::Object(vec![member("a", number(1.0)), member("a", number(2.0))]);
    assert_eq!(doc.member("a"), Some(&number(1.0)));
}

#[test]
fn member_of_what_is_no_object_is_none() {
    assert_eq!(Json::Null.member("a"), None);
    assert_eq!(text("a").member("a"), None);
    assert_eq!(Json::Array(vec![text("a")]).member("a"), None);
    assert_eq!(number(1.0).member("a"), None);
    assert_eq!(Json::Bool(true).member("a"), None);
}

#[test]
fn descend_from_nothing_is_nothing() {
    assert_eq!(descend(None, "a"), None);
}

#[test]
fn descend_steps_into_objects_only() {
    let inner = Json::Object(vec![member("text", text("Rain"))]);
    let doc = Json::Object(vec![member("condition", inner), member("temp_c", number(4.0))]);
    assert_eq!(descend(descend(Some(&doc), "condition"), "text"), Some(&text("Rain")));
    assert_eq!(descend(descend(Some(&doc), "temp_c"), "text"), None);
    assert_eq!(descend(descend(Some(&doc), "wind"), "text"), None);
}

#[test]
fn read_text_tells_missing_from_mistyped() {
    assert_eq!(read_text(Some(&text("Cloudy"))), Ok(String::from("Cloudy")));
    assert_eq!(read_text(Some(&text(""))), Ok(String::new()));
    assert_eq!(read_text(None), Err("missing"));
    assert_eq!(read_text(Some(&number(1.0))), Err("expected a string"));
    assert_eq!(read_text(Some(&Json::Null)), Err("expected a string"));
}

#[test]
fn read_number_tells_missing_from_mistyped() {
    assert_eq!(read_number(Some(&number(15.0))), Ok(15.0f64.to_bits()));
    assert_eq!(read_number(None), Err("missing"));
    assert_eq!(read_number(Some(&text("15.0"))), Err("expected a number"));
    assert_eq!(read_number(Some(&Json::Number(None))), Err("expected a number"));
    assert_eq!(read_number(Some(&Json::Bool(false))), Err("expected a number"));
}

#[test]
fn read_array_tells_missing_from_mistyped() {
    let items = vec![number(1.0), number(2.0)];
    assert_eq!(read_array(Some(&Json::Array(vec![number(1.0), number(2.0)]))), Ok(&items));
    assert_eq!(read_array(None), Err("missing"));
    assert_eq!(read_array(Some(&Json::Object(vec![]))), Err("expected an array"));
    assert_eq!(read_array(Some(&Json::Null)), Err("expected an array"));
}
