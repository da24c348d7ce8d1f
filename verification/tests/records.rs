use weather_uploader::config::{Config, ConfigError};
use weather_uploader::models::{
    Batch, FieldMap, FieldValue, MetricsInput, TelegrafMetric, UploadResponse, WeatherData,
};
use weather_uploader::reading::Reading;

fn reading(x: f64) -> Reading {
    Reading::from_micros((x * 1e6).round() as i64)
}

fn number(x: f64) -> FieldValue {
    FieldValue::Number(reading(x))
}

fn some(s: &str) -> Option<String> {
    Some(s.to_string())
}

#[test]
fn new_field_map_is_empty() {
    let m: FieldMap<Reading> = FieldMap::new();
    assert!(m.is_empty());
    assert_eq!(m.get("temperature"), None);
}

#[test]
fn field_map_holds_what_was_set() {
    let mut m: FieldMap<Reading> = FieldMap::new();
    m.insert("temperature".to_string(), reading(21.5));
    m.insert("humidity".to_string(), reading(55.0));
    assert!(!m.is_empty());
    assert_eq!(m.get("temperature"), Some(&reading(21.5)));
    assert_eq!(m.get("humidity"), Some(&reading(55.0)));
    assert_eq!(m.get("pressure"), None);
    assert_eq!(m.get("Temperature"), None);
    assert_eq!(m.get(""), None);
}

#[test]
fn field_map_replaces_a_name_that_is_set_again() {
    let mut m: FieldMap<Reading> = FieldMap::new();
    m.insert("a".to_string(), reading(1.0));
    m.insert("b".to_string(), reading(2.0));
    m.insert("a".to_string(), reading(3.0));
    assert_eq!(m.get("a"), Some(&reading(3.0)));
    assert_eq!(m.get("b"), Some(&reading(2.0)));
}

#[test]
fn numeric_keeps_numbers_only() {
    let mut raw: FieldMap<FieldValue> = FieldMap::new();
    raw.insert("temperature".to_string(), number(21.5));
    raw.insert("humidity".to_string(), FieldValue::Text("bad".to_string()));
    raw.insert("flag".to_string(), FieldValue::Bool(true));
    raw.insert("gone".to_string(), FieldValue::Null);
    raw.insert("nested".to_string(), FieldValue::Other);
    raw.insert("co2".to_string(), number(415.0));
    let n = raw.numeric();
    assert_eq!(n.get("temperature"), Some(&reading(21.5)));
    assert_eq!(n.get("co2"), Some(&reading(415.0)));
    assert_eq!(n.get("humidity"), None);
    assert_eq!(n.get("flag"), None);
    assert_eq!(n.get("gone"), None);
    assert_eq!(n.get("nested"), None);
}

#[test]
fn numeric_of_no_numbers_is_empty() {
    let mut raw: FieldMap<FieldValue> = FieldMap::new();
    assert!(raw.numeric().is_empty());
    raw.insert("humidity".to_string(), FieldValue::Text("55".to_string()));
    raw.insert("on".to_string(), FieldValue::Bool(false));
    assert!(raw.numeric().is_empty());
}

#[test]
fn numeric_follows_the_value_set_last() {
    let mut raw: FieldMap<FieldValue> = FieldMap::new();
    raw.insert("temperature".to_string(), number(1.0));
    raw.insert("temperature".to_string(), FieldValue::Text("warm".to_string()));
    assert_eq!(raw.numeric().get("temperature"), None);
    raw.insert("temperature".to_string(), number(2.0));
    assert_eq!(raw.numeric().get("temperature"), Some(&reading(2.0)));
}

#[test]
fn extraction_drops_what_is_not_a_number() {
    let mut raw: FieldMap<FieldValue> = FieldMap::new();
    raw.insert("temperature".to_string(), number(21.5));
    raw.insert("humidity".to_string(), FieldValue::Text("bad".to_string()));
    let w = WeatherData::from_fields(&raw.numeric());
    assert_eq!(w.temperature, Some(reading(21.5)));
    assert_eq!(w.humidity, None);
    assert_eq!(WeatherData { temperature: None, ..w }, WeatherData::default());
}

#[test]
fn from_fields_reads_each_of_the_twelve_names() {
    let names = [
        "temperature",
        "humidity",
        "barometric_pressure",
        "wind_direction",
        "wind_speed",
        "wind_gust",
        "rainfall_hourly",
        "rainfall_daily",
        "pm2_5",
        "pm10",
        "light_intensity",
        "co2",
    ];
    let mut m: FieldMap<Reading> = FieldMap::new();
    for (i, name) in names.iter().enumerate() {
        m.insert(name.to_string(), reading(i as f64 + 0.25));
    }
    let w = WeatherData::from_fields(&m);
    let got = [
        w.temperature,
        w.humidity,
        w.barometric_pressure,
        w.wind_direction,
        w.wind_speed,
        w.wind_gust,
        w.rainfall_hourly,
        w.rainfall_daily,
        w.pm2_5,
        w.pm10,
        w.light_intensity,
        w.co2,
    ];
    for (i, value) in got.iter().enumerate() {
        assert_eq!(*value, Some(reading(i as f64 + 0.25)), "field {}", names[i]);
    }
}

#[test]
fn from_fields_ignores_unknown_names() {
    let mut m: FieldMap<Reading> = FieldMap::new();
    m.insert("battery".to_string(), reading(3.7));
    m.insert("Temperature".to_string(), reading(20.0));
    m.insert("pm25".to_string(), reading(9.0));
    assert_eq!(WeatherData::from_fields(&m), WeatherData::default());
}

#[test]
fn from_fields_passes_values_out_of_range_through() {
    let mut m: FieldMap<Reading> = FieldMap::new();
    m.insert("humidity".to_string(), reading(140.0));
    m.insert("wind_direction".to_string(), reading(-725.0));
    let w = WeatherData::from_fields(&m);
    assert_eq!(w.humidity, Some(reading(140.0)));
    assert_eq!(w.wind_direction, Some(reading(-725.0)));
}

#[test]
fn default_sample_has_no_field() {
    let w = WeatherData::default();
    assert_eq!(w, WeatherData::from_fields(&FieldMap::new()));
    assert!(w.temperature.is_none() && w.humidity.is_none() && w.co2.is_none());
    assert!(w.light_intensity.is_none() && w.pm10.is_none() && w.pm2_5.is_none());
}

#[test]
fn records_hold_their_parts() {
    let mut tags: FieldMap<String> = FieldMap::new();
    tags.insert("host".to_string(), "roof".to_string());
    let mut fields: FieldMap<FieldValue> = FieldMap::new();
    fields.insert("temperature".to_string(), number(1.0));
    let metric = TelegrafMetric {
        name: "weather".to_string(),
        timestamp: 1_700_000_000,
        tags: Some(tags),
        fields,
    };
    assert_eq!(metric.tags.as_ref().unwrap().get("host"), Some(&"roof".to_string()));
    let input = MetricsInput::Batch(Batch { metrics: vec![metric] });
    match input {
        MetricsInput::Batch(b) => {
            assert_eq!(b.metrics.len(), 1);
            assert_eq!(b.metrics[0].name, "weather");
            assert_eq!(b.metrics[0].timestamp, 1_700_000_000);
        }
        MetricsInput::Single(_) => panic!("a batch was given"),
    }
    let r = UploadResponse { success: true, message: "ok".to_string() };
    assert_eq!(r.clone(), r);
}

#[test]
fn config_takes_all_four_settings() {
    let c = Config::from_vars(some("KWU1"), some("wu-pass"), some("PWS1"), some("pws-pass"))
        .expect("all four are set");
    assert_eq!(c.wu_station_id, "KWU1");
    assert_eq!(c.wu_password, "wu-pass");
    assert_eq!(c.pws_station_id, "PWS1");
    assert_eq!(c.pws_password, "pws-pass");
}

#[test]
fn config_reports_the_first_missing_setting() {
    let e = Config::from_vars(None, None, None, None).unwrap_err();
    assert_eq!(e, ConfigError::WuStationId);
    assert_eq!(e.message(), "WU_STATION_ID not set");
    let e = Config::from_vars(some("a"), None, some("c"), None).unwrap_err();
    assert_eq!(e, ConfigError::WuPassword);
    assert_eq!(e.message(), "WU_PASSWORD not set");
    let e = Config::from_vars(some("a"), some("b"), None, some("d")).unwrap_err();
    assert_eq!(e, ConfigError::PwsStationId);
    assert_eq!(e.message(), "PWS_STATION_ID not set");
    let e = Config::from_vars(some("a"), some("b"), some("c"), None).unwrap_err();
    assert_eq!(e, ConfigError::PwsPassword);
    assert_eq!(e.message(), "PWS_PASSWORD not set");
}

#[test]
fn config_takes_empty_settings_as_set() {
    let c = Config::from_vars(some(""), some(""), some(""), some("")).expect("set, if empty");
    assert_eq!(c.wu_station_id, "");
}
