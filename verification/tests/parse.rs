//! The response parser against a realistic provider body, each failure
//! shape, the bounded read buffer, and the query URL.

use weather_station::fetch::{parse_weather, BodyBuffer, WeatherApi};
use weather_station::weather::Failure;

fn sample_body() -> Vec<u8> {
    let mut s = String::new();
    s.push_str("{\"coord\":{\"lon\":139.69,\"lat\":35.69},");
    s.push_str("\"weather\":[{\"id\":800,\"main\":\"Clear\",\"description\":\"clear sky\",\"icon\":\"01d\"}],");
    s.push_str("\"base\":\"stations\",");
    s.push_str("\"main\":{\"temp\":21.5,\"feels_like\":21.0,\"temp_min\":20.1,\"temp_max\":23.4,\"pressure\":1013,\"humidity\":40},");
    s.push_str("\"visibility\":10000,");
    s.push_str("\"wind\":{\"speed\":3.2,\"deg\":250.5,\"gust\":5.1},");
    s.push_str("\"clouds\":{\"all\":0},");
    s.push_str("\"dt\":1709596800,");
    s.push_str("\"sys\":{\"type\":2,\"country\":\"JP\",\"sunrise\":1709582000,\"sunset\":1709624000},");
    s.push_str("\"timezone\":32400,\"id\":1850144,\"name\":\"Tokyo\",\"cod\":200}");
    s.into_bytes()
}

#[test]
fn parse_full_body() {
    let d = parse_weather(&sample_body()).unwrap();
    assert_eq!(d.weather.len(), 1);
    assert_eq!(d.weather[0].id, 800);
    assert_eq!(d.main.temp_deci, 215);
    assert_eq!(d.main.humidity, 40);
    assert_eq!(d.main.pressure, 1013);
    assert_eq!(d.main.sea_level, None);
    assert_eq!(d.main.grnd_level, None);
    assert_eq!(d.wind.speed_deci, 32);
    assert_eq!(d.wind.deg_deci, 2505);
    assert_eq!(d.wind.gust_deci, Some(51));
    assert_eq!(d.dt, 1709596800);
    assert_eq!(d.name, b"Tokyo".to_vec());
}

#[test]
fn parse_missing_temp_is_data_shape_failure() {
    let body = String::from_utf8(sample_body())
        .unwrap()
        .replace("\"temp\":21.5,", "");
    assert_eq!(parse_weather(body.as_bytes()), Err(Failure::DataShape));
}

#[test]
fn parse_missing_name_is_data_shape_failure() {
    let body = String::from_utf8(sample_body())
        .unwrap()
        .replace("\"name\":\"Tokyo\",", "");
    assert_eq!(parse_weather(body.as_bytes()), Err(Failure::DataShape));
}

#[test]
fn parse_negative_temperature() {
    let body = String::from_utf8(sample_body())
        .unwrap()
        .replace("\"temp\":21.5", "\"temp\":-3.2");
    let d = parse_weather(body.as_bytes()).unwrap();
    assert_eq!(d.main.temp_deci, -32);
}

#[test]
fn parse_integer_temperature_scales_to_tenths() {
    let body = String::from_utf8(sample_body())
        .unwrap()
        .replace("\"temp\":21.5", "\"temp\":21");
    let d = parse_weather(body.as_bytes()).unwrap();
    assert_eq!(d.main.temp_deci, 210);
}

#[test]
fn parse_overlong_number_is_data_shape_failure() {
    let body = String::from_utf8(sample_body())
        .unwrap()
        .replace("\"temp\":21.5", "\"temp\":123456789012");
    assert_eq!(parse_weather(body.as_bytes()), Err(Failure::DataShape));
}

#[test]
fn parse_out_of_range_condition_code_fails() {
    let body = String::from_utf8(sample_body())
        .unwrap()
        .replace("\"id\":800", "\"id\":70000");
    assert_eq!(parse_weather(body.as_bytes()), Err(Failure::DataShape));
}

#[test]
fn parse_unknown_condition_code_is_kept() {
    let body = String::from_utf8(sample_body())
        .unwrap()
        .replace("\"id\":800", "\"id\":999");
    let d = parse_weather(body.as_bytes()).unwrap();
    assert_eq!(d.weather[0].id, 999);
}

#[test]
fn parse_overlong_name_is_data_shape_failure() {
    let body = String::from_utf8(sample_body())
        .unwrap()
        .replace("\"name\":\"Tokyo\"", "\"name\":\"ALongCityNameOfManyChars\"");
    assert_eq!(parse_weather(body.as_bytes()), Err(Failure::DataShape));
}

#[test]
fn parse_escaped_name_is_data_shape_failure() {
    let body = String::from_utf8(sample_body())
        .unwrap()
        .replace("\"name\":\"Tokyo\"", "\"name\":\"To\\\"kyo\"");
    assert_eq!(parse_weather(body.as_bytes()), Err(Failure::DataShape));
}

#[test]
fn parse_optional_sea_level_accepted() {
    let body = String::from_utf8(sample_body())
        .unwrap()
        .replace("\"pressure\":1013", "\"pressure\":1013,\"sea_level\":1015,\"grnd_level\":1008");
    let d = parse_weather(body.as_bytes()).unwrap();
    assert_eq!(d.main.sea_level, Some(1015));
    assert_eq!(d.main.grnd_level, Some(1008));
}

#[test]
fn parse_empty_body_fails() {
    assert_eq!(parse_weather(&[]), Err(Failure::DataShape));
}

#[test]
fn buffer_accepts_up_to_capacity() {
    let mut buf = BodyBuffer::new();
    assert_eq!(buf.capacity(), 4096);
    let chunk = vec![7u8; 4000];
    assert_eq!(buf.push_chunk(&chunk), Ok(()));
    let rest = vec![9u8; 96];
    assert_eq!(buf.push_chunk(&rest), Ok(()));
    assert_eq!(buf.data.len(), 4096);
}

#[test]
fn buffer_overflow_is_protocol_failure_and_leaves_buffer() {
    let mut buf = BodyBuffer::new();
    let chunk = vec![7u8; 4000];
    assert_eq!(buf.push_chunk(&chunk), Ok(()));
    let too_much = vec![9u8; 97];
    assert_eq!(buf.push_chunk(&too_much), Err(Failure::Protocol));
    assert_eq!(buf.data.len(), 4000);
    assert!(buf.data.iter().all(|&b| b == 7));
    let oversized = vec![1u8; 5000];
    let mut fresh = BodyBuffer::new();
    assert_eq!(fresh.push_chunk(&oversized), Err(Failure::Protocol));
    assert_eq!(fresh.data.len(), 0);
}

#[test]
fn url_holds_endpoint_and_credential() {
    let api = WeatherApi::new(b"0123456789abcdef0123456789abcdef").unwrap();
    let url = String::from_utf8(api.url.clone()).unwrap();
    assert!(url.starts_with(
        "https://api.openweathermap.org/data/2.5/weather?q=Tokyo&units=metric&appid="
    ));
    assert!(url.ends_with("0123456789abcdef0123456789abcdef"));
    assert!(url.len() <= 120);
}

#[test]
fn url_refuses_oversized_credential() {
    let key = vec![b'x'; 100];
    assert!(WeatherApi::new(&key).is_none());
}
