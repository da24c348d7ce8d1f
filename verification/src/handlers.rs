//! The decisions of the ingestion pipeline: which records are taken, what
//! is remembered of them, and what is answered once both uploads are done.
//!
//! The caller receives the record, sends the two requests and hands their
//! results back; every decision in between is made here.

use vstd::prelude::*;
use vstd::string::*;
use crate::config::Config;
use crate::models::{
    numeric_fields,
    FieldMap,
    FieldValue,
    TelegrafMetric,
    UploadResponse,
    WeatherData,
};
use crate::reading::Reading;
use crate::status::HttpStatus;
use crate::upload::UploadError;

verus! {

/// What the service keeps between requests: the station's credentials, and
/// the numeric fields of the record that was taken last.
#[derive(Debug)]
pub struct AppState {
    pub config: Config,
    pub latest_data: FieldMap<Reading>,
}

impl AppState {
    /// The state at start: nothing has been received yet.
    pub fn new(config: Config) -> (state: AppState)
        ensures
            state.config == config,
            state.latest_data@ == Map::<Seq<char>, Reading>::empty(),
    {
        AppState { config, latest_data: FieldMap::new() }
    }
}

/// Answers a health probe.
pub fn health_check() -> (reply: (HttpStatus, &'static str))
    ensures
        reply.0@ == 200,
        reply.1@ == "OK"@,
{
    (HttpStatus::ok(), "OK")
}

/// Whether a record is taken: it must be named "weather" and hold at least
/// one numeric field.
pub open spec fn accepts(metric: TelegrafMetric) -> bool {
    metric.name@ == "weather"@ && numeric_fields(metric.fields@) != Map::<
        Seq<char>,
        Reading,
    >::empty()
}

/// What a record that is not taken is answered with. A record of another
/// name is refused for its name, whatever its fields.
pub open spec fn rejection_text(metric: TelegrafMetric) -> Seq<char> {
    if metric.name@ != "weather"@ {
        "Expected 'weather' metric"@
    } else {
        "No weather data found"@
    }
}

/// The fields remembered after `metric` has been handled: those of the
/// record if it is taken, and otherwise the ones remembered before.
pub open spec fn latest_after(before: Map<Seq<char>, Reading>, metric: TelegrafMetric) -> Map<
    Seq<char>,
    Reading,
> {
    if accepts(metric) {
        numeric_fields(metric.fields@)
    } else {
        before
    }
}

/// Handles one inbound record. A record that is taken replaces all that was
/// remembered of the one before, and gives the sample to upload. A record
/// that is not taken leaves the state as it was and gives the answer to
/// send back at once, with status 400: there is then nothing to upload.
pub fn handle_metrics(state: &mut AppState, metric: TelegrafMetric) -> (r: Result<
    WeatherData,
    (HttpStatus, UploadResponse),
>)
    ensures
        final(state).config == old(state).config,
        final(state).latest_data@ == latest_after(old(state).latest_data@, metric),
        accepts(metric) ==> r == Ok::<WeatherData, (HttpStatus, UploadResponse)>(
            WeatherData::spec_from_fields(numeric_fields(metric.fields@)),
        ),
        !accepts(metric) ==> *final(state) == *old(state) && r is Err && (r->Err_0).0@ == 400
            && !(r->Err_0).1.success && (r->Err_0).1.message@ == rejection_text(metric),
{
    let expected = "weather".to_owned();
    if !(metric.name == expected) {
        return Err(
            (
                HttpStatus::bad_request(),
                UploadResponse { success: false, message: "Expected 'weather' metric".to_owned() },
            ),
        );
    }
    let latest_fields = metric.fields.numeric();
    if latest_fields.is_empty() {
        return Err(
            (
                HttpStatus::bad_request(),
                UploadResponse { success: false, message: "No weather data found".to_owned() },
            ),
        );
    }
    let weather = WeatherData::from_fields(&latest_fields);
    state.latest_data = latest_fields;
    Ok(weather)
}

/// The failures of the two uploads, each under the short name of its
/// service, Weather Underground first.
pub open spec fn failures_text(
    wu: Result<(), UploadError>,
    pws: Result<(), UploadError>,
) -> Seq<char> {
    match (wu, pws) {
        (Err(a), Err(b)) => "WU: "@ + a.text() + ", "@ + "PWS: "@ + b.text(),
        (Err(a), Ok(_)) => "WU: "@ + a.text(),
        (Ok(_), Err(b)) => "PWS: "@ + b.text(),
        (Ok(_), Ok(_)) => Seq::empty(),
    }
}

/// What is answered once both uploads are done.
pub open spec fn summary_text(wu: Result<(), UploadError>, pws: Result<(), UploadError>) -> Seq<
    char,
> {
    if wu is Ok && pws is Ok {
        "Uploaded successfully to both services"@
    } else {
        "Some uploads failed: "@ + failures_text(wu, pws)
    }
}

/// Folds the results of the two uploads into one answer. Each result counts
/// by itself: the answer reports success with status 200 only if both
/// succeeded, and otherwise reports failure with status 206 and says which
/// service failed and why.
pub fn upload_response(wu: &Result<(), UploadError>, pws: &Result<(), UploadError>) -> (reply: (
    HttpStatus,
    UploadResponse,
))
    ensures
        reply.1.success == (wu is Ok && pws is Ok),
        reply.0@ == (if wu is Ok && pws is Ok {
            200u16
        } else {
            206u16
        }),
        reply.1.message@ == summary_text(*wu, *pws),
{
    let mut failures = String::new();
    let mut failed = false;
    if let Err(e) = wu {
        failures.append("WU: ");
        let text = e.message();
        failures.append(text.as_str());
        failed = true;
    }
    if let Err(e) = pws {
        if failed {
            failures.append(", ");
        }
        failures.append("PWS: ");
        let text = e.message();
        failures.append(text.as_str());
        failed = true;
    }
    assert(failures@ =~= failures_text(*wu, *pws));
    if failed {
        let mut message = "Some uploads failed: ".to_owned();
        message.append(failures.as_str());
        (HttpStatus::partial_content(), UploadResponse { success: false, message })
    } else {
        (
            HttpStatus::ok(),
            UploadResponse {
                success: true,
                message: "Uploaded successfully to both services".to_owned(),
            },
        )
    }
}

/// A record of any name but "weather" is never taken, whatever its fields:
/// it is refused for its name, and nothing that was remembered changes.
pub proof fn lemma_other_names_refused(before: Map<Seq<char>, Reading>, metric: TelegrafMetric)
    requires
        metric.name@ != "weather"@,
    ensures
        !accepts(metric),
        rejection_text(metric) == "Expected 'weather' metric"@,
        latest_after(before, metric) == before,
{
}

/// After two records are taken one after the other, what is remembered is
/// the numeric fields of the second alone: every remembered name is a
/// numeric field of the second record, with its number, whatever was
/// remembered before and whatever the first record held.
pub proof fn lemma_latest_is_last_taken(
    before: Map<Seq<char>, Reading>,
    first: TelegrafMetric,
    second: TelegrafMetric,
)
    requires
        accepts(first),
        accepts(second),
    ensures
        latest_after(latest_after(before, first), second) == numeric_fields(second.fields@),
        forall|name: Seq<char>| #[trigger]
            latest_after(latest_after(before, first), second).contains_key(name) ==> {
                &&& second.fields@.contains_key(name)
                &&& second.fields@[name] == FieldValue::Number(
                    latest_after(latest_after(before, first), second)[name],
                )
            },
{
}

/// Where one upload succeeds and the other fails, the answer reports
/// failure and names the service that failed, and no other.
pub proof fn lemma_one_failure_named(error: UploadError)
    ensures
        summary_text(Ok(()), Err(error)) == "Some uploads failed: "@ + ("PWS: "@ + error.text()),
        summary_text(Err(error), Ok(())) == "Some uploads failed: "@ + ("WU: "@ + error.text()),
{
}

/// A field is present in the sample taken from a record exactly when the
/// record holds a number under the field's name, and it is then that
/// number. Shown here for each of the twelve fields.
pub proof fn lemma_sample_fields(fields: Map<Seq<char>, FieldValue>)
    ensures
        ({
            let w = WeatherData::spec_from_fields(numeric_fields(fields));
            &&& w.temperature == number_at(fields, "temperature"@)
            &&& w.humidity == number_at(fields, "humidity"@)
            &&& w.barometric_pressure == number_at(fields, "barometric_pressure"@)
            &&& w.wind_direction == number_at(fields, "wind_direction"@)
            &&& w.wind_speed == number_at(fields, "wind_speed"@)
            &&& w.wind_gust == number_at(fields, "wind_gust"@)
            &&& w.rainfall_hourly == number_at(fields, "rainfall_hourly"@)
            &&& w.rainfall_daily == number_at(fields, "rainfall_daily"@)
            &&& w.pm2_5 == number_at(fields, "pm2_5"@)
            &&& w.pm10 == number_at(fields, "pm10"@)
            &&& w.light_intensity == number_at(fields, "light_intensity"@)
            &&& w.co2 == number_at(fields, "co2"@)
        }),
{
}

/// The number that `fields` holds under `name`; nothing where the name is
/// missing or its value is of another kind.
pub open spec fn number_at(fields: Map<Seq<char>, FieldValue>, name: Seq<char>) -> Option<
    Reading,
> {
    if fields.contains_key(name) {
        match fields[name] {
            FieldValue::Number(r) => Some(r),
            _ => None,
        }
    } else {
        None
    }
}

} // verus!
