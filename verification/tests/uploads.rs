use weather_uploader::config::Config;
use weather_uploader::models::WeatherData;
use weather_uploader::reading::Reading;
use weather_uploader::status::HttpStatus;
use weather_uploader::upload::{
    add_weather_params, upload_request, upload_result, Destination, HttpOutcome, UploadError,
    TIMEOUT_SECS,
};

fn reading(x: f64) -> Reading {
    Reading::from_micros((x * 1e6).round() as i64)
}

fn config() -> Config {
    Config {
        wu_station_id: "KWU1".to_string(),
        wu_password: "wu-pass".to_string(),
        pws_station_id: "PWS1".to_string(),
        pws_password: "pws-pass".to_string(),
    }
}

fn full_sample() -> WeatherData {
    WeatherData {
        temperature: Some(reading(21.5)),
        humidity: Some(reading(48.6)),
        barometric_pressure: Some(reading(1013.25)),
        wind_direction: Some(reading(180.0)),
        wind_speed: Some(reading(3.5)),
        wind_gust: Some(reading(5.2)),
        rainfall_hourly: Some(reading(1.2)),
        rainfall_daily: Some(reading(12.7)),
        pm2_5: Some(reading(12.34)),
        pm10: Some(reading(20.06)),
        light_intensity: Some(reading(54000.0)),
        co2: Some(reading(415.0)),
    }
}

fn pairs(list: &[(&str, &str)]) -> Vec<(String, String)> {
    list.iter().map(|(n, v)| (n.to_string(), v.to_string())).collect()
}

fn names(params: &[(String, String)]) -> Vec<&str> {
    params.iter().map(|p| p.0.as_str()).collect()
}

fn status(code: u16) -> HttpStatus {
    HttpStatus::from_u16(code).expect("a status from 100 to 999")
}

fn reply(code: u16, body: &str) -> HttpOutcome {
    HttpOutcome::Response { status: status(code), body: body.to_string() }
}

#[test]
fn weather_params_of_a_full_sample() {
    let mut params = Vec::new();
    add_weather_params(&mut params, &full_sample(), Some(reading(50.04)));
    assert_eq!(
        params,
        pairs(&[
            ("tempf", "70.70"),
            ("humidity", "49"),
            ("dewptf", "50.04"),
            ("baromin", "29.921"),
            ("winddir", "180"),
            ("windspeedmph", "7.83"),
            ("windgustmph", "11.63"),
            ("rainin", "0.047"),
            ("dailyrainin", "0.500"),
            ("AqPM2.5", "12.3"),
            ("AqPM2.5_avg_24h", "12.3"),
            ("AqPM10", "20.1"),
            ("AqPM10_avg_24h", "20.1"),
        ])
    );
}

#[test]
fn weather_params_are_appended_to_what_is_there() {
    let mut params = pairs(&[("ID", "x")]);
    let data = WeatherData { humidity: Some(reading(30.0)), ..WeatherData::default() };
    add_weather_params(&mut params, &data, None);
    assert_eq!(params, pairs(&[("ID", "x"), ("humidity", "30")]));
}

#[test]
fn weather_params_of_an_empty_sample() {
    let mut params = Vec::new();
    add_weather_params(&mut params, &WeatherData::default(), Some(reading(50.0)));
    assert!(params.is_empty());
}

#[test]
fn each_field_goes_out_alone() {
    let d = WeatherData::default();
    let cases: Vec<(WeatherData, Vec<(String, String)>)> = vec![
        (WeatherData { temperature: Some(reading(0.0)), ..d }, pairs(&[("tempf", "32.00")])),
        (WeatherData { humidity: Some(reading(99.4)), ..d }, pairs(&[("humidity", "99")])),
        (
            WeatherData { barometric_pressure: Some(reading(1000.0)), ..d },
            pairs(&[("baromin", "29.530")]),
        ),
        (WeatherData { wind_direction: Some(reading(359.6)), ..d }, pairs(&[("winddir", "360")])),
        (WeatherData { wind_speed: Some(reading(10.0)), ..d }, pairs(&[("windspeedmph", "22.37")])),
        (WeatherData { wind_gust: Some(reading(1.0)), ..d }, pairs(&[("windgustmph", "2.24")])),
        (WeatherData { rainfall_hourly: Some(reading(25.4)), ..d }, pairs(&[("rainin", "1.000")])),
        (
            WeatherData { rainfall_daily: Some(reading(100.0)), ..d },
            pairs(&[("dailyrainin", "3.937")]),
        ),
        (
            WeatherData { pm2_5: Some(reading(7.0)), ..d },
            pairs(&[("AqPM2.5", "7.0"), ("AqPM2.5_avg_24h", "7.0")]),
        ),
        (
            WeatherData { pm10: Some(reading(0.04)), ..d },
            pairs(&[("AqPM10", "0.0"), ("AqPM10_avg_24h", "0.0")]),
        ),
        (WeatherData { light_intensity: Some(reading(1.0)), ..d }, Vec::new()),
        (WeatherData { co2: Some(reading(1.0)), ..d }, Vec::new()),
    ];
    for (data, expected) in cases {
        let mut params = Vec::new();
        add_weather_params(&mut params, &data, Some(reading(1.0)));
        assert_eq!(params, expected);
    }
}

#[test]
fn dewpoint_goes_out_to_both_services() {
    let data = WeatherData {
        temperature: Some(reading(22.0)),
        humidity: Some(reading(55.0)),
        light_intensity: Some(reading(800.0)),
        co2: Some(reading(600.0)),
        ..WeatherData::default()
    };
    for destination in [Destination::WeatherUnderground, Destination::PwsWeather] {
        let request = upload_request(destination, &config(), &data, Some(reading(54.64)));
        let sent = names(&request.params);
        assert!(sent.contains(&"dewptf"));
        assert!(request.params.contains(&("dewptf".to_string(), "54.64".to_string())));
        assert!(request.params.contains(&("tempf".to_string(), "71.60".to_string())));
        assert!(request.params.contains(&("humidity".to_string(), "55".to_string())));
        for name in sent {
            let lower = name.to_lowercase();
            assert!(!lower.contains("light") && !lower.contains("co2") && !lower.contains("solar"));
        }
        assert_eq!(request.params.len(), 8);
    }
}

#[test]
fn dewpoint_needs_both_temperature_and_humidity() {
    let d = WeatherData::default();
    for data in [
        WeatherData { temperature: Some(reading(22.0)), ..d },
        WeatherData { humidity: Some(reading(55.0)), ..d },
        d,
    ] {
        let mut params = Vec::new();
        add_weather_params(&mut params, &data, Some(reading(54.64)));
        assert!(!names(&params).contains(&"dewptf"));
    }
}

#[test]
fn dewpoint_without_a_finite_value_is_left_out() {
    let data = WeatherData {
        temperature: Some(reading(22.0)),
        humidity: Some(reading(0.0)),
        ..WeatherData::default()
    };
    let mut params = Vec::new();
    add_weather_params(&mut params, &data, None);
    assert_eq!(params, pairs(&[("tempf", "71.60"), ("humidity", "0")]));
}

#[test]
fn light_and_co2_change_nothing_that_is_sent() {
    let with = full_sample();
    let without = WeatherData { light_intensity: None, co2: None, ..with };
    for destination in [Destination::WeatherUnderground, Destination::PwsWeather] {
        let a = upload_request(destination, &config(), &with, Some(reading(50.0)));
        let b = upload_request(destination, &config(), &without, Some(reading(50.0)));
        assert_eq!(a.params, b.params);
        assert_eq!(a.url, b.url);
    }
}

#[test]
fn request_to_weather_underground() {
    let data = WeatherData { temperature: Some(reading(21.5)), ..WeatherData::default() };
    let request = upload_request(Destination::WeatherUnderground, &config(), &data, None);
    assert_eq!(
        request.url,
        "https://rtupdate.wunderground.com/weatherstation/updateweatherstation.php"
    );
    assert_eq!(request.timeout_secs, 30);
    assert_eq!(TIMEOUT_SECS, 30);
    assert_eq!(
        request.params,
        pairs(&[
            ("ID", "KWU1"),
            ("PASSWORD", "wu-pass"),
            ("action", "updateraw"),
            ("dateutc", "now"),
            ("softwaretype", "Seed Studio SenseCAP S1000 Adapter v0.1.0"),
            ("tempf", "70.70"),
        ])
    );
}

#[test]
fn request_to_pwsweather() {
    let data = WeatherData { wind_gust: Some(reading(5.2)), ..WeatherData::default() };
    let request = upload_request(Destination::PwsWeather, &config(), &data, None);
    assert_eq!(request.url, "https://pwsupdate.pwsweather.com/api/v1/submitwx");
    assert_eq!(request.timeout_secs, 30);
    assert_eq!(
        request.params,
        pairs(&[
            ("ID", "PWS1"),
            ("PASSWORD", "pws-pass"),
            ("action", "updateraw"),
            ("dateutc", "now"),
            ("softwaretype", "Seed Studio SenseCAP S1000 Adapter v0.1.0"),
            ("windgustmph", "11.63"),
        ])
    );
}

#[test]
fn destinations_have_their_names() {
    assert_eq!(Destination::WeatherUnderground.label(), "Weather Underground");
    assert_eq!(Destination::PwsWeather.label(), "PWSWeather");
    assert!(Destination::WeatherUnderground.url().starts_with("https://rtupdate.wunderground"));
    assert!(Destination::PwsWeather.url().starts_with("https://pwsupdate.pwsweather"));
}

#[test]
fn status_numbers_have_three_digits() {
    for code in [0u16, 1, 99, 1000, 1001, u16::MAX] {
        assert!(HttpStatus::from_u16(code).is_none(), "{}", code);
    }
    for code in [100u16, 200, 206, 400, 599, 999] {
        assert_eq!(HttpStatus::from_u16(code).map(|s| s.as_u16()), Some(code));
    }
    assert_eq!(HttpStatus::ok().as_u16(), 200);
    assert_eq!(HttpStatus::partial_content().as_u16(), 206);
    assert_eq!(HttpStatus::bad_request().as_u16(), 400);
}

#[test]
fn success_is_two_hundred_to_two_ninety_nine() {
    for code in 100u16..=999 {
        assert_eq!(status(code).is_success(), (200..=299).contains(&code), "{}", code);
    }
}

#[test]
fn status_text_is_number_and_reason() {
    assert_eq!(status(200).to_text(), "200 OK");
    assert_eq!(status(404).to_text(), "404 Not Found");
    assert_eq!(status(500).to_text(), "500 Internal Server Error");
    assert_eq!(status(599).to_text(), "599 <unknown status code>");
    for code in [100u16, 206, 301, 418, 503, 999] {
        let theirs = reqwest::StatusCode::from_u16(code).unwrap().to_string();
        assert_eq!(status(code).to_text(), theirs);
    }
}

#[test]
fn weather_underground_needs_the_marker() {
    let wu = Destination::WeatherUnderground;
    assert!(upload_result(wu, reply(200, "success")).is_ok());
    assert!(upload_result(wu, reply(200, "\nsuccess\n")).is_ok());
    assert!(upload_result(wu, reply(204, "upload: success!")).is_ok());
    for body in ["", "succes", "Success", "s u c c e s s", "INVALIDPASSWORDID|Password incorrect"] {
        match upload_result(wu, reply(200, body)) {
            Err(UploadError::Rejected { destination, status, body: b }) => {
                assert_eq!(destination, wu);
                assert_eq!(status.as_u16(), 200);
                assert_eq!(b, body);
            }
            other => panic!("{:?}", other),
        }
    }
}

#[test]
fn weather_underground_needs_a_successful_status_too() {
    let wu = Destination::WeatherUnderground;
    for code in [199u16, 300, 401, 500] {
        assert!(upload_result(wu, reply(code, "success")).is_err(), "{}", code);
    }
}

#[test]
fn pwsweather_goes_by_the_status_alone() {
    let pws = Destination::PwsWeather;
    for body in ["", "success", "error: bad station", "{\"ok\":false}"] {
        assert!(upload_result(pws, reply(200, body)).is_ok());
        assert!(upload_result(pws, reply(299, body)).is_ok());
        assert!(upload_result(pws, reply(300, body)).is_err());
        assert!(upload_result(pws, reply(500, body)).is_err());
        assert!(upload_result(pws, reply(199, body)).is_err());
    }
}

#[test]
fn rejected_upload_says_status_and_body() {
    let e = upload_result(Destination::PwsWeather, reply(500, "boom")).unwrap_err();
    assert_eq!(e.message(), "PWSWeather upload failed: 500 Internal Server Error - boom");
    let e = upload_result(Destination::WeatherUnderground, reply(200, "bad password")).unwrap_err();
    assert_eq!(e.message(), "Weather Underground upload failed: 200 OK - bad password");
    let e = upload_result(Destination::WeatherUnderground, reply(401, "")).unwrap_err();
    assert_eq!(e.message(), "Weather Underground upload failed: 401 Unauthorized - ");
}

#[test]
fn request_that_could_not_be_sent() {
    for (destination, text) in [
        (Destination::WeatherUnderground, "Failed to send request to Weather Underground"),
        (Destination::PwsWeather, "Failed to send request to PWSWeather"),
    ] {
        match upload_result(destination, HttpOutcome::SendFailed) {
            Err(e) => {
                assert!(matches!(e, UploadError::SendFailed(d) if d == destination));
                assert_eq!(e.message(), text);
            }
            Ok(()) => panic!("nothing was sent"),
        }
    }
}

#[test]
fn client_failure_is_passed_on() {
    let outcome = HttpOutcome::ClientError("error decoding response body".to_string());
    match upload_result(Destination::PwsWeather, outcome) {
        Err(e) => {
            assert!(matches!(&e, UploadError::Client(t) if t == "error decoding response body"));
            assert_eq!(e.message(), "error decoding response body");
        }
        Ok(()) => panic!("the client failed"),
    }
}
