//! What is sent to each of the two services, and how its reply is read.
//!
//! Nothing here talks to the network: a request is built for the caller to
//! send, and what came of sending it is handed back to be judged.

use vstd::prelude::*;
use vstd::string::*;
use crate::config::Config;
use crate::conversions::{
    celsius_to_fahrenheit,
    celsius_to_fahrenheit_units,
    hpa_to_inhg,
    hpa_to_inhg_units,
    mm_to_inches,
    mm_to_inches_units,
    ms_to_mph,
    ms_to_mph_units,
};
use crate::models::WeatherData;
use crate::reading::{fixed_text, Precision, Quantity, Reading};
use crate::status::{status_line, HttpStatus};

verus! {

/// Seconds after which a request is given up.
pub const TIMEOUT_SECS: u64 = 30;

/// One of the two services that take the station's readings.
#[derive(Clone, Copy, Debug, PartialEq, Eq, Structural)]
pub enum Destination {
    WeatherUnderground,
    PwsWeather,
}

/// The name under which this software reports itself.
pub open spec fn software_type() -> Seq<char> {
    "Seed Studio SenseCAP S1000 Adapter v0.1.0"@
}

impl Destination {
    /// The address that takes the readings.
    pub open spec fn url_text(self) -> Seq<char> {
        match self {
            Destination::WeatherUnderground =>
                "https://rtupdate.wunderground.com/weatherstation/updateweatherstation.php"@,
            Destination::PwsWeather => "https://pwsupdate.pwsweather.com/api/v1/submitwx"@,
        }
    }

    /// The service's name as it is written in messages.
    pub open spec fn label_text(self) -> Seq<char> {
        match self {
            Destination::WeatherUnderground => "Weather Underground"@,
            Destination::PwsWeather => "PWSWeather"@,
        }
    }

    /// Whether the service reports failure inside a successful reply, so
    /// that a reply counts only if its body holds the word "success".
    pub open spec fn needs_marker(self) -> bool {
        self == Destination::WeatherUnderground
    }

    /// The station's identifier at this service.
    pub open spec fn station_id(self, config: Config) -> Seq<char> {
        match self {
            Destination::WeatherUnderground => config.wu_station_id@,
            Destination::PwsWeather => config.pws_station_id@,
        }
    }

    /// The station's password at this service.
    pub open spec fn password(self, config: Config) -> Seq<char> {
        match self {
            Destination::WeatherUnderground => config.wu_password@,
            Destination::PwsWeather => config.pws_password@,
        }
    }

    /// The address that takes the readings.
    pub fn url(&self) -> (s: &'static str)
        ensures
            s@ == self.url_text(),
    {
        match self {
            Destination::WeatherUnderground =>
                "https://rtupdate.wunderground.com/weatherstation/updateweatherstation.php",
            Destination::PwsWeather => "https://pwsupdate.pwsweather.com/api/v1/submitwx",
        }
    }

    /// The service's name as it is written in messages.
    pub fn label(&self) -> (s: &'static str)
        ensures
            s@ == self.label_text(),
    {
        match self {
            Destination::WeatherUnderground => "Weather Underground",
            Destination::PwsWeather => "PWSWeather",
        }
    }
}

/// A list of named parameters, each name and value as plain text.
pub open spec fn params_view(params: Seq<(String, String)>) -> Seq<(Seq<char>, Seq<char>)> {
    params.map_values(|p: (String, String)| (p.0@, p.1@))
}

/// The parameter `name` for the quantity `units`, written at precision `p`;
/// nothing where there is no quantity.
pub open spec fn quantity_param(name: Seq<char>, units: Option<int>, p: Precision) -> Seq<
    (Seq<char>, Seq<char>),
> {
    match units {
        Some(u) => seq![(name, fixed_text(u, p))],
        None => Seq::empty(),
    }
}

/// A reading as it stands, in ten-trillionths.
pub open spec fn plain_of(r: Option<Reading>) -> Option<int> {
    match r {
        Some(r) => Some(r.units()),
        None => None,
    }
}

/// A Celsius reading in degrees Fahrenheit.
pub open spec fn fahrenheit_of(r: Option<Reading>) -> Option<int> {
    match r {
        Some(r) => Some(celsius_to_fahrenheit_units(r.units())),
        None => None,
    }
}

/// A hectopascal reading in inches of mercury.
pub open spec fn inhg_of(r: Option<Reading>) -> Option<int> {
    match r {
        Some(r) => Some(hpa_to_inhg_units(r.units())),
        None => None,
    }
}

/// A metres-per-second reading in miles per hour.
pub open spec fn mph_of(r: Option<Reading>) -> Option<int> {
    match r {
        Some(r) => Some(ms_to_mph_units(r.units())),
        None => None,
    }
}

/// A millimetre reading in inches.
pub open spec fn inches_of(r: Option<Reading>) -> Option<int> {
    match r {
        Some(r) => Some(mm_to_inches_units(r.units())),
        None => None,
    }
}

/// The dewpoint that goes out with a sample: the one given, and only if the
/// sample holds both a temperature and a humidity.
pub open spec fn dewpoint_to_send(data: WeatherData, dewpoint_f: Option<Reading>) -> Option<int> {
    if data.temperature is Some && data.humidity is Some {
        plain_of(dewpoint_f)
    } else {
        None
    }
}

/// Temperature, humidity, dewpoint and pressure, as they go out.
pub open spec fn air_params(data: WeatherData, dewpoint_f: Option<Reading>) -> Seq<
    (Seq<char>, Seq<char>),
> {
    quantity_param("tempf"@, fahrenheit_of(data.temperature), Precision::Hundredths)
        + quantity_param("humidity"@, plain_of(data.humidity), Precision::Whole)
        + quantity_param("dewptf"@, dewpoint_to_send(data, dewpoint_f), Precision::Hundredths)
        + quantity_param("baromin"@, inhg_of(data.barometric_pressure), Precision::Thousandths)
}

/// Wind direction, speed and gust, as they go out.
pub open spec fn wind_params(data: WeatherData) -> Seq<(Seq<char>, Seq<char>)> {
    quantity_param("winddir"@, plain_of(data.wind_direction), Precision::Whole)
        + quantity_param("windspeedmph"@, mph_of(data.wind_speed), Precision::Hundredths)
        + quantity_param("windgustmph"@, mph_of(data.wind_gust), Precision::Hundredths)
}

/// Rainfall of the hour and of the day, as they go out.
pub open spec fn rain_params(data: WeatherData) -> Seq<(Seq<char>, Seq<char>)> {
    quantity_param("rainin"@, inches_of(data.rainfall_hourly), Precision::Thousandths)
        + quantity_param("dailyrainin"@, inches_of(data.rainfall_daily), Precision::Thousandths)
}

/// The particulate readings, as they go out. Each goes out twice, the
/// second time as the 24-hour average, for which the reading of the moment
/// stands in: no average is kept.
pub open spec fn dust_params(data: WeatherData) -> Seq<(Seq<char>, Seq<char>)> {
    quantity_param("AqPM2.5"@, plain_of(data.pm2_5), Precision::Tenths)
        + quantity_param("AqPM2.5_avg_24h"@, plain_of(data.pm2_5), Precision::Tenths)
        + quantity_param("AqPM10"@, plain_of(data.pm10), Precision::Tenths)
        + quantity_param("AqPM10_avg_24h"@, plain_of(data.pm10), Precision::Tenths)
}

/// The parameters that carry a sample, in the order in which they are sent.
/// Each field that is present goes out under its name, in the unit and with
/// the decimals that the services expect. Light intensity and CO2 never go
/// out: the services have no parameter for them.
pub open spec fn weather_params(data: WeatherData, dewpoint_f: Option<Reading>) -> Seq<
    (Seq<char>, Seq<char>),
> {
    air_params(data, dewpoint_f) + wind_params(data) + rain_params(data) + dust_params(data)
}

/// The parameters of the request that takes a sample to `destination`: the
/// station's credentials, the fixed parameters, and the sample.
pub open spec fn request_params(
    destination: Destination,
    config: Config,
    data: WeatherData,
    dewpoint_f: Option<Reading>,
) -> Seq<(Seq<char>, Seq<char>)> {
    seq![
        ("ID"@, destination.station_id(config)),
        ("PASSWORD"@, destination.password(config)),
        ("action"@, "updateraw"@),
        ("dateutc"@, "now"@),
        ("softwaretype"@, software_type()),
    ] + weather_params(data, dewpoint_f)
}

/// The quantity held in `q`, in ten-trillionths.
pub open spec fn units_of(q: Option<Quantity>) -> Option<int> {
    match q {
        Some(q) => Some(q@),
        None => None,
    }
}

proof fn lemma_params_view_push(params: Seq<(String, String)>, param: (String, String))
    ensures
        params_view(params.push(param)) == params_view(params) + seq![(param.0@, param.1@)],
{
    assert(params_view(params.push(param)) =~= params_view(params) + seq![(param.0@, param.1@)]);
}

fn push_text(params: &mut Vec<(String, String)>, name: &str, value: String)
    ensures
        params_view(final(params)@) == params_view(old(params)@) + seq![(name@, value@)],
{
    let param = (name.to_owned(), value);
    proof {
        lemma_params_view_push(params@, param);
    }
    params.push(param);
}

fn push_quantity(
    params: &mut Vec<(String, String)>,
    name: &str,
    value: Option<Quantity>,
    p: Precision,
)
    ensures
        params_view(final(params)@) == params_view(old(params)@) + quantity_param(
            name@,
            units_of(value),
            p,
        ),
{
    match value {
        Some(q) => {
            push_text(params, name, q.to_fixed(p));
        },
        None => {
            assert(params_view(params@) =~= params_view(params@) + quantity_param(
                name@,
                units_of(value),
                p,
            ));
        },
    }
}

fn plain(r: Option<Reading>) -> (q: Option<Quantity>)
    ensures
        units_of(q) == plain_of(r),
{
    match r {
        Some(r) => Some(r.quantity()),
        None => None,
    }
}

fn fahrenheit(r: Option<Reading>) -> (q: Option<Quantity>)
    ensures
        units_of(q) == fahrenheit_of(r),
{
    match r {
        Some(r) => Some(celsius_to_fahrenheit(r)),
        None => None,
    }
}

fn inhg(r: Option<Reading>) -> (q: Option<Quantity>)
    ensures
        units_of(q) == inhg_of(r),
{
    match r {
        Some(r) => Some(hpa_to_inhg(r)),
        None => None,
    }
}

fn mph(r: Option<Reading>) -> (q: Option<Quantity>)
    ensures
        units_of(q) == mph_of(r),
{
    match r {
        Some(r) => Some(ms_to_mph(r)),
        None => None,
    }
}

fn inches(r: Option<Reading>) -> (q: Option<Quantity>)
    ensures
        units_of(q) == inches_of(r),
{
    match r {
        Some(r) => Some(mm_to_inches(r)),
        None => None,
    }
}

fn add_air_params(
    params: &mut Vec<(String, String)>,
    data: &WeatherData,
    dewpoint_f: Option<Reading>,
)
    ensures
        params_view(final(params)@) == params_view(old(params)@) + air_params(*data, dewpoint_f),
{
    let dewpoint = if data.temperature.is_some() && data.humidity.is_some() {
        plain(dewpoint_f)
    } else {
        None
    };
    push_quantity(params, "tempf", fahrenheit(data.temperature), Precision::Hundredths);
    push_quantity(params, "humidity", plain(data.humidity), Precision::Whole);
    push_quantity(params, "dewptf", dewpoint, Precision::Hundredths);
    push_quantity(params, "baromin", inhg(data.barometric_pressure), Precision::Thousandths);
    assert(params_view(params@) =~= params_view(old(params)@) + air_params(*data, dewpoint_f));
}

fn add_wind_params(params: &mut Vec<(String, String)>, data: &WeatherData)
    ensures
        params_view(final(params)@) == params_view(old(params)@) + wind_params(*data),
{
    push_quantity(params, "winddir", plain(data.wind_direction), Precision::Whole);
    push_quantity(params, "windspeedmph", mph(data.wind_speed), Precision::Hundredths);
    push_quantity(params, "windgustmph", mph(data.wind_gust), Precision::Hundredths);
    assert(params_view(params@) =~= params_view(old(params)@) + wind_params(*data));
}

fn add_rain_params(params: &mut Vec<(String, String)>, data: &WeatherData)
    ensures
        params_view(final(params)@) == params_view(old(params)@) + rain_params(*data),
{
    push_quantity(params, "rainin", inches(data.rainfall_hourly), Precision::Thousandths);
    push_quantity(params, "dailyrainin", inches(data.rainfall_daily), Precision::Thousandths);
    assert(params_view(params@) =~= params_view(old(params)@) + rain_params(*data));
}

fn add_dust_params(params: &mut Vec<(String, String)>, data: &WeatherData)
    ensures
        params_view(final(params)@) == params_view(old(params)@) + dust_params(*data),
{
    push_quantity(params, "AqPM2.5", plain(data.pm2_5), Precision::Tenths);
    push_quantity(params, "AqPM2.5_avg_24h", plain(data.pm2_5), Precision::Tenths);
    push_quantity(params, "AqPM10", plain(data.pm10), Precision::Tenths);
    push_quantity(params, "AqPM10_avg_24h", plain(data.pm10), Precision::Tenths);
    assert(params_view(params@) =~= params_view(old(params)@) + dust_params(*data));
}

/// Appends the parameters that carry `data`. `dewpoint_f` is the dewpoint in
/// degrees Fahrenheit worked out from the sample's temperature and
/// humidity, or nothing where it has no finite value.
pub fn add_weather_params(
    params: &mut Vec<(String, String)>,
    data: &WeatherData,
    dewpoint_f: Option<Reading>,
)
    ensures
        params_view(final(params)@) == params_view(old(params)@) + weather_params(
            *data,
            dewpoint_f,
        ),
{
    add_air_params(params, data, dewpoint_f);
    add_wind_params(params, data);
    add_rain_params(params, data);
    add_dust_params(params, data);
    assert(params_view(params@) =~= params_view(old(params)@) + weather_params(
        *data,
        dewpoint_f,
    ));
}

/// A request for the caller to send: a GET of `url` with `params` as its
/// query, given up after `timeout_secs` seconds.
#[derive(Debug)]
pub struct UploadRequest {
    pub url: String,
    pub params: Vec<(String, String)>,
    pub timeout_secs: u64,
}

/// Builds the request that takes `data` to `destination`.
pub fn upload_request(
    destination: Destination,
    config: &Config,
    data: &WeatherData,
    dewpoint_f: Option<Reading>,
) -> (request: UploadRequest)
    ensures
        request.url@ == destination.url_text(),
        params_view(request.params@) == request_params(destination, *config, *data, dewpoint_f),
        request.timeout_secs == TIMEOUT_SECS,
{
    let mut params: Vec<(String, String)> = Vec::new();
    assert(params_view(params@) =~= Seq::empty());
    match destination {
        Destination::WeatherUnderground => {
            push_text(&mut params, "ID", config.wu_station_id.clone());
            push_text(&mut params, "PASSWORD", config.wu_password.clone());
        },
        Destination::PwsWeather => {
            push_text(&mut params, "ID", config.pws_station_id.clone());
            push_text(&mut params, "PASSWORD", config.pws_password.clone());
        },
    }
    push_text(&mut params, "action", "updateraw".to_owned());
    push_text(&mut params, "dateutc", "now".to_owned());
    push_text(
        &mut params,
        "softwaretype",
        "Seed Studio SenseCAP S1000 Adapter v0.1.0".to_owned(),
    );
    let ghost fixed = params_view(params@);
    assert(fixed =~= seq![
        ("ID"@, destination.station_id(*config)),
        ("PASSWORD"@, destination.password(*config)),
        ("action"@, "updateraw"@),
        ("dateutc"@, "now"@),
        ("softwaretype"@, software_type()),
    ]);
    add_weather_params(&mut params, data, dewpoint_f);
    UploadRequest { url: destination.url().to_owned(), params, timeout_secs: TIMEOUT_SECS }
}

/// `needle` occurs in `haystack` as an unbroken run.
pub open spec fn contains_text(haystack: Seq<char>, needle: Seq<char>) -> bool {
    exists|i: int|
        0 <= i <= haystack.len() - needle.len() && #[trigger] haystack.subrange(
            i,
            i + needle.len(),
        ) == needle
}

/// Calls `str::contains` with a string as the pattern. Trusted: it answers
/// whether the pattern occurs in the text as an unbroken run of characters.
#[verifier::external_body]
fn text_contains(haystack: &str, needle: &str) -> (found: bool)
    ensures
        found == contains_text(haystack@, needle@),
{
    haystack.contains(needle)
}

/// What came of sending a request.
#[derive(Debug)]
pub enum HttpOutcome {
    /// The request could not be sent, or no reply came in time.
    SendFailed,
    /// The client could not be set up, or the reply's body could not be
    /// read; the text is the client's account of it.
    ClientError(String),
    /// A reply came.
    Response { status: HttpStatus, body: String },
}

/// Why an upload did not succeed.
#[derive(Debug)]
pub enum UploadError {
    /// The request to the service could not be sent.
    SendFailed(Destination),
    /// The client failed; the text is its account of it.
    Client(String),
    /// The service replied, and the reply does not count as success.
    Rejected { destination: Destination, status: HttpStatus, body: String },
}

/// Whether a reply with status number `code` and body `body` counts as
/// success at `destination`: the status must lie from 200 to 299, and where
/// the service needs the marker, the body must hold the word "success".
pub open spec fn accepted(destination: Destination, code: u16, body: Seq<char>) -> bool {
    200 <= code <= 299 && (destination.needs_marker() ==> contains_text(body, "success"@))
}

/// What an outcome means at `destination`.
pub open spec fn outcome_result(destination: Destination, outcome: HttpOutcome) -> Result<
    (),
    UploadError,
> {
    match outcome {
        HttpOutcome::SendFailed => Err(UploadError::SendFailed(destination)),
        HttpOutcome::ClientError(text) => Err(UploadError::Client(text)),
        HttpOutcome::Response { status, body } => if accepted(destination, status@, body@) {
            Ok(())
        } else {
            Err(UploadError::Rejected { destination, status, body })
        },
    }
}

/// Judges what came of sending a request to `destination`. A failure to
/// send, a reply that reports failure and a reply that lacks the marker are
/// each returned as an error, never raised.
pub fn upload_result(destination: Destination, outcome: HttpOutcome) -> (r: Result<
    (),
    UploadError,
>)
    ensures
        r == outcome_result(destination, outcome),
{
    match outcome {
        HttpOutcome::SendFailed => Err(UploadError::SendFailed(destination)),
        HttpOutcome::ClientError(text) => Err(UploadError::Client(text)),
        HttpOutcome::Response { status, body } => {
            let marked = match destination {
                Destination::WeatherUnderground => text_contains(body.as_str(), "success"),
                Destination::PwsWeather => true,
            };
            if status.is_success() && marked {
                Ok(())
            } else {
                Err(UploadError::Rejected { destination, status, body })
            }
        },
    }
}

impl UploadError {
    /// What the error says.
    pub open spec fn text(self) -> Seq<char> {
        match self {
            UploadError::SendFailed(destination) => "Failed to send request to "@
                + destination.label_text(),
            UploadError::Client(text) => text@,
            UploadError::Rejected { destination, status, body } => destination.label_text()
                + " upload failed: "@ + status_line(status@) + " - "@ + body@,
        }
    }

    /// What the error says: for a reply that does not count, the service's
    /// name, the status written out, and the body.
    pub fn message(&self) -> (s: String)
        ensures
            s@ == self.text(),
    {
        match self {
            UploadError::SendFailed(destination) => {
                let mut s = "Failed to send request to ".to_owned();
                s.append(destination.label());
                s
            },
            UploadError::Client(text) => text.clone(),
            UploadError::Rejected { destination, status, body } => {
                let mut s = destination.label().to_owned();
                s.append(" upload failed: ");
                let line = status.to_text();
                s.append(line.as_str());
                s.append(" - ");
                s.append(body.as_str());
                s
            },
        }
    }
}

/// `name` is the name of one of `params`.
pub open spec fn has_name(params: Seq<(Seq<char>, Seq<char>)>, name: Seq<char>) -> bool {
    exists|i: int| 0 <= i < params.len() && (#[trigger] params[i]).0 == name
}

/// The names under which a sample's parameters go out.
pub open spec fn weather_names() -> Set<Seq<char>> {
    set![
        "tempf"@,
        "humidity"@,
        "dewptf"@,
        "baromin"@,
        "winddir"@,
        "windspeedmph"@,
        "windgustmph"@,
        "rainin"@,
        "dailyrainin"@,
        "AqPM2.5"@,
        "AqPM2.5_avg_24h"@,
        "AqPM10"@,
        "AqPM10_avg_24h"@,
    ]
}

/// Every name in `params` is one of `names`.
pub open spec fn names_within(params: Seq<(Seq<char>, Seq<char>)>, names: Set<Seq<char>>) -> bool {
    forall|i: int| 0 <= i < params.len() ==> names.contains((#[trigger] params[i]).0)
}

proof fn lemma_names_within_add(
    a: Seq<(Seq<char>, Seq<char>)>,
    b: Seq<(Seq<char>, Seq<char>)>,
    names: Set<Seq<char>>,
)
    requires
        names_within(a, names),
        names_within(b, names),
    ensures
        names_within(a + b, names),
{
    assert forall|i: int| 0 <= i < (a + b).len() implies names.contains(
        (#[trigger] (a + b)[i]).0,
    ) by {
        if i < a.len() {
            assert((a + b)[i] == a[i]);
        } else {
            assert((a + b)[i] == b[i - a.len()]);
        }
    }
}

proof fn lemma_quantity_param_named(name: Seq<char>, units: Option<int>, p: Precision)
    ensures
        names_within(quantity_param(name, units, p), set![name]),
        units is Some ==> has_name(quantity_param(name, units, p), name),
{
    if units is Some {
        assert(quantity_param(name, units, p)[0].0 == name);
    }
}

proof fn lemma_names_within_wider(
    a: Seq<(Seq<char>, Seq<char>)>,
    name: Seq<char>,
    names: Set<Seq<char>>,
)
    requires
        names_within(a, set![name]),
        names.contains(name),
    ensures
        names_within(a, names),
{
}

proof fn lemma_has_name_add(
    a: Seq<(Seq<char>, Seq<char>)>,
    b: Seq<(Seq<char>, Seq<char>)>,
    name: Seq<char>,
)
    requires
        has_name(a, name) || has_name(b, name),
    ensures
        has_name(a + b, name),
{
    if has_name(a, name) {
        let i = choose|i: int| 0 <= i < a.len() && (#[trigger] a[i]).0 == name;
        assert((a + b)[i] == a[i]);
    } else {
        let i = choose|i: int| 0 <= i < b.len() && (#[trigger] b[i]).0 == name;
        assert((a + b)[i + a.len()] == b[i]);
    }
}

/// A sample with both a temperature and a humidity goes out with the
/// dewpoint given for it, to either service.
pub proof fn lemma_dewpoint_sent(
    destination: Destination,
    config: Config,
    data: WeatherData,
    dewpoint_f: Reading,
)
    requires
        data.temperature is Some,
        data.humidity is Some,
    ensures
        has_name(weather_params(data, Some(dewpoint_f)), "dewptf"@),
        has_name(request_params(destination, config, data, Some(dewpoint_f)), "dewptf"@),
{
    let dew = Some(dewpoint_f);
    let before = quantity_param("tempf"@, fahrenheit_of(data.temperature), Precision::Hundredths)
        + quantity_param("humidity"@, plain_of(data.humidity), Precision::Whole);
    let dewpoint = quantity_param("dewptf"@, dewpoint_to_send(data, dew), Precision::Hundredths);
    let after = quantity_param(
        "baromin"@,
        inhg_of(data.barometric_pressure),
        Precision::Thousandths,
    );
    lemma_quantity_param_named("dewptf"@, dewpoint_to_send(data, dew), Precision::Hundredths);
    lemma_has_name_add(before, dewpoint, "dewptf"@);
    lemma_has_name_add(before + dewpoint, after, "dewptf"@);
    let air = air_params(data, dew);
    lemma_has_name_add(air, wind_params(data), "dewptf"@);
    lemma_has_name_add(air + wind_params(data), rain_params(data), "dewptf"@);
    lemma_has_name_add(
        air + wind_params(data) + rain_params(data),
        dust_params(data),
        "dewptf"@,
    );
    let fixed = seq![
        ("ID"@, destination.station_id(config)),
        ("PASSWORD"@, destination.password(config)),
        ("action"@, "updateraw"@),
        ("dateutc"@, "now"@),
        ("softwaretype"@, software_type()),
    ];
    lemma_has_name_add(fixed, weather_params(data, dew), "dewptf"@);
}

/// A sample without a temperature, or without a humidity, goes out without
/// a dewpoint, whatever dewpoint is given.
pub proof fn lemma_dewpoint_withheld(data: WeatherData, dewpoint_f: Option<Reading>)
    requires
        data.temperature is None || data.humidity is None,
    ensures
        weather_params(data, dewpoint_f) == weather_params(data, None),
{
}

proof fn lemma_named(
    sent: Seq<(Seq<char>, Seq<char>)>,
    name: Seq<char>,
    units: Option<int>,
    p: Precision,
)
    requires
        names_within(sent, weather_names()),
        weather_names().contains(name),
    ensures
        names_within(sent + quantity_param(name, units, p), weather_names()),
{
    lemma_quantity_param_named(name, units, p);
    lemma_names_within_wider(quantity_param(name, units, p), name, weather_names());
    lemma_names_within_add(sent, quantity_param(name, units, p), weather_names());
}

/// Light intensity and CO2 are never sent: what goes out is the same
/// whatever these two fields hold, and goes out under the weather names
/// only.
pub proof fn lemma_light_and_co2_never_sent(
    data: WeatherData,
    dewpoint_f: Option<Reading>,
    light_intensity: Option<Reading>,
    co2: Option<Reading>,
)
    ensures
        weather_params((WeatherData { light_intensity, co2, ..data }), dewpoint_f)
            == weather_params(data, dewpoint_f),
        names_within(weather_params(data, dewpoint_f), weather_names()),
{
    let none = Seq::<(Seq<char>, Seq<char>)>::empty();
    let h = Precision::Hundredths;
    let w = Precision::Whole;
    let t = Precision::Thousandths;
    let d = Precision::Tenths;

    let a1 = quantity_param("tempf"@, fahrenheit_of(data.temperature), h);
    lemma_named(none, "tempf"@, fahrenheit_of(data.temperature), h);
    assert(none + a1 =~= a1);
    lemma_named(a1, "humidity"@, plain_of(data.humidity), w);
    let a2 = a1 + quantity_param("humidity"@, plain_of(data.humidity), w);
    lemma_named(a2, "dewptf"@, dewpoint_to_send(data, dewpoint_f), h);
    let a3 = a2 + quantity_param("dewptf"@, dewpoint_to_send(data, dewpoint_f), h);
    lemma_named(a3, "baromin"@, inhg_of(data.barometric_pressure), t);
    assert(names_within(air_params(data, dewpoint_f), weather_names()));

    let w1 = quantity_param("winddir"@, plain_of(data.wind_direction), w);
    lemma_named(none, "winddir"@, plain_of(data.wind_direction), w);
    assert(none + w1 =~= w1);
    lemma_named(w1, "windspeedmph"@, mph_of(data.wind_speed), h);
    let w2 = w1 + quantity_param("windspeedmph"@, mph_of(data.wind_speed), h);
    lemma_named(w2, "windgustmph"@, mph_of(data.wind_gust), h);
    assert(names_within(wind_params(data), weather_names()));

    let r1 = quantity_param("rainin"@, inches_of(data.rainfall_hourly), t);
    lemma_named(none, "rainin"@, inches_of(data.rainfall_hourly), t);
    assert(none + r1 =~= r1);
    lemma_named(r1, "dailyrainin"@, inches_of(data.rainfall_daily), t);
    assert(names_within(rain_params(data), weather_names()));

    let d1 = quantity_param("AqPM2.5"@, plain_of(data.pm2_5), d);
    lemma_named(none, "AqPM2.5"@, plain_of(data.pm2_5), d);
    assert(none + d1 =~= d1);
    lemma_named(d1, "AqPM2.5_avg_24h"@, plain_of(data.pm2_5), d);
    let d2 = d1 + quantity_param("AqPM2.5_avg_24h"@, plain_of(data.pm2_5), d);
    lemma_named(d2, "AqPM10"@, plain_of(data.pm10), d);
    let d3 = d2 + quantity_param("AqPM10"@, plain_of(data.pm10), d);
    lemma_named(d3, "AqPM10_avg_24h"@, plain_of(data.pm10), d);
    assert(names_within(dust_params(data), weather_names()));

    let air = air_params(data, dewpoint_f);
    lemma_names_within_add(air, wind_params(data), weather_names());
    lemma_names_within_add(air + wind_params(data), rain_params(data), weather_names());
    lemma_names_within_add(
        air + wind_params(data) + rain_params(data),
        dust_params(data),
        weather_names(),
    );
}

} // verus!
