use weather_backend::url::push_percent_encoded;
use weather_backend::url::request_url;
use weather_backend::url::Upstream;
use weather_backend::url::DEFAULT_BASE_URL;

fn encoded(value: &str) -> String {
    let mut text = String::new();
    push_percent_encoded(&mut text, value);
    text
}

fn upstream() -> Upstream {
    Upstream {
        base_url: String::from("http://api.weatherapi.com/v1/forecast.json"),
        api_key: String::from("K3Y"),
    }
}

#[test]
fn unreserved_characters_stand_for_themselves() {
    assert_eq!(encoded("London"), "London");
    assert_eq!(
        encoded("ABCXYZabcxyz0123456789-._~"),
        "ABCXYZabcxyz0123456789-._~"
    );
}

#[test]
fn empty_value_encodes_to_nothing() {
    assert_eq!(encoded(""), "");
}

#[test]
fn space_and_comma_are_escaped() {
    assert_eq!(encoded("New York"), "New%20York");
    assert_eq!(encoded("48.85,2.35"), "48.85%2C2.35");
}

#[test]
fn separators_of_a_query_are_escaped() {
    assert_eq!(encoded("a&key=x"), "a%26key%3Dx");
    assert_eq!(encoded("a#b?c/d"), "a%23b%3Fc%2Fd");
    assert_eq!(encoded("100%"), "100%25");
    assert_eq!(encoded("a+b"), "a%2Bb");
}

#[test]
fn bytes_next_to_the_unreserved_ranges_are_escaped() {
    assert_eq!(encoded("@[`{"), "%40%5B%60%7B");
    assert_eq!(encoded("/:"), "%2F%3A");
}

#[test]
fn control_characters_are_escaped_with_two_digits() {
    assert_eq!(encoded("a\nb"), "a%0Ab");
    assert_eq!(encoded("\u{0}\u{7f}"), "%00%7F");
}

#[test]
fn text_beyond_ascii_is_escaped_byte_by_byte() {
    assert_eq!(encoded("S\u{e3}o Paulo"), "S%C3%A3o%20Paulo");
    assert_eq!(encoded("\u{6771}\u{4eac}"), "%E6%9D%B1%E4%BA%AC");
    assert_eq!(encoded("\u{1f600}"), "%F0%9F%98%80");
}

#[test]
fn encoding_is_appended_to_what_is_there() {
    let mut text = String::from("q=");
    push_percent_encoded(&mut text, "a b");
    assert_eq!(text, "q=a%20b");
}

#[test]
fn request_url_for_a_plain_city() {
    assert_eq!(
        request_url(&upstream(), "London"),
        "http://api.weatherapi.com/v1/forecast.json?key=K3Y&q=London&days=7"
    );
}

#[test]
fn request_url_keeps_the_location_inside_its_parameter() {
    assert_eq!(
        request_url(&upstream(), "Paris&days=1&key=other"),
        "http://api.weatherapi.com/v1/forecast.json?key=K3Y&q=Paris%26days%3D1%26key%3Dother&days=7"
    );
}

#[test]
fn request_url_uses_the_configured_base_and_key() {
    let upstream = Upstream {
        base_url: String::from("http://127.0.0.1:9000/stub"),
        api_key: String::from("secret"),
    };
    assert_eq!(
        request_url(&upstream, "New York"),
        "http://127.0.0.1:9000/stub?key=secret&q=New%20York&days=7"
    );
}

#[test]
fn request_urls_of_different_locations_differ() {
    let a = request_url(&upstream(), "a b");
    let b = request_url(&upstream(), "a%20b");
    assert_eq!(a, "http://api.weatherapi.com/v1/forecast.json?key=K3Y&q=a%20b&days=7");
    assert_eq!(b, "http://api.weatherapi.com/v1/forecast.json?key=K3Y&q=a%2520b&days=7");
    assert_ne!(a, b);
}

#[test]
fn default_base_url_is_the_providers_forecast_endpoint() {
    assert_eq!(DEFAULT_BASE_URL, "http://api.weatherapi.com/v1/forecast.json");
}

#[test]
fn settings_without_a_credential_give_no_configuration() {
    assert_eq!(Upstream::from_settings(None, None), None);
    assert_eq!(
        Upstream::from_settings(Some(String::from("http://stub")), None),
        None
    );
}

#[test]
fn settings_with_an_empty_credential_give_no_configuration() {
    assert_eq!(Upstream::from_settings(None, Some(String::new())), None);
}

#[test]
fn settings_without_a_base_fall_back_to_the_default() {
    let expected = Upstream {
        base_url: String::from("http://api.weatherapi.com/v1/forecast.json"),
        api_key: String::from("abc"),
    };
    assert_eq!(
        Upstream::from_settings(None, Some(String::from("abc"))),
        Some(expected.clone())
    );
    assert_eq!(
        Upstream::from_settings(Some(String::new()), Some(String::from("abc"))),
        Some(expected)
    );
}

#[test]
fn settings_with_a_base_keep_it() {
    assert_eq!(
        Upstream::from_settings(Some(String::from("http://stub/f")), Some(String::from("abc"))),
        Some(Upstream {
            base_url: String::from("http://stub/f"),
            api_key: String::from("abc"),
        })
    );
}
