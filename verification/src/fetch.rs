//! Extraction of a reading from a remote API's response body: the first
//! device's latest temperature event from the device API, and the current
//! outdoor temperature from the weather API.
use vstd::prelude::*;
use crate::json::{Json, spec_get};
use crate::parse::{parse_json, spec_parse_json};

verus! {

/// One temperature observation: the number's decimal text, untouched on
/// its way from the response body to the database row, and the source
/// API's own timestamp string.
#[derive(Debug)]
pub struct Reading {
    pub temp: String,
    pub measured: String,
}

/// The mathematical value of [`Reading`].
pub struct ReadingV {
    pub temp: Seq<char>,
    pub measured: Seq<char>,
}

impl View for Reading {
    type V = ReadingV;

    open spec fn view(&self) -> ReadingV {
        ReadingV { temp: self.temp@, measured: self.measured@ }
    }
}

/// The reading an empty device list yields: a zero temperature and an
/// empty timestamp, deliberately not an error.
pub open spec fn spec_default_reading() -> ReadingV {
    ReadingV { temp: "0.0"@, measured: ""@ }
}

/// Why a response body was rejected.
#[derive(Debug, PartialEq, Eq, Structural)]
pub enum FetchError {
    /// The body is not well-formed JSON.
    Syntax,
    /// The body lacks an expected field, or a field has the wrong type.
    Shape,
}

/// The latest temperature event of one device object: the fields
/// `newest_events.te.val` (a number) and `newest_events.te.created_at`
/// (a string). `None` if either is missing or mistyped.
pub open spec fn spec_te_reading(device: Json) -> Option<ReadingV> {
    match spec_get(device, "newest_events"@) {
        Some(ne) => match spec_get(ne, "te"@) {
            Some(te) => match (spec_get(te, "val"@), spec_get(te, "created_at"@)) {
                (Some(Json::Num(t)), Some(Json::Str(m))) => Some(
                    ReadingV { temp: t@, measured: m@ },
                ),
                _ => None,
            },
            None => None,
        },
        None => None,
    }
}

/// What the device API's document yields: the body must be an array;
/// an empty array gives the default reading, and otherwise only the
/// first element is inspected — later devices never contribute.
pub open spec fn spec_device_reading(doc: Json) -> Option<ReadingV> {
    match doc {
        Json::Arr(devices) => if devices@.len() == 0 {
            Some(spec_default_reading())
        } else {
            spec_te_reading(devices@[0])
        },
        _ => None,
    }
}

/// What the weather API's document yields: the body must be an object
/// with `current.temp_c` (a number) and `current.last_updated` (a
/// string).
pub open spec fn spec_weather_reading(doc: Json) -> Option<ReadingV> {
    match spec_get(doc, "current"@) {
        Some(cur) => match (spec_get(cur, "temp_c"@), spec_get(cur, "last_updated"@)) {
            (Some(Json::Num(t)), Some(Json::Str(m))) => Some(
                ReadingV { temp: t@, measured: m@ },
            ),
            _ => None,
        },
        None => None,
    }
}

fn te_reading(device: &Json) -> (r: Option<Reading>)
    ensures
        match r {
            Some(rd) => spec_te_reading(*device) == Some(rd@),
            None => spec_te_reading(*device) is None,
        },
{
    let ne = match device.get("newest_events") {
        Some(v) => v,
        None => { return None; },
    };
    let te = match ne.get("te") {
        Some(v) => v,
        None => { return None; },
    };
    let temp = match te.get("val") {
        Some(v) => match v {
            Json::Num(t) => t.clone(),
            _ => { return None; },
        },
        None => { return None; },
    };
    match te.get("created_at") {
        Some(v) => match v {
            Json::Str(m) => Some(Reading { temp, measured: m.clone() }),
            _ => None,
        },
        None => None,
    }
}

/// Extracts the device reading from a parsed device-API document.
pub fn device_reading(doc: &Json) -> (r: Option<Reading>)
    ensures
        match r {
            Some(rd) => spec_device_reading(*doc) == Some(rd@),
            None => spec_device_reading(*doc) is None,
        },
{
    match doc {
        Json::Arr(devices) => {
            if devices.len() == 0 {
                // The deliberate edge case: no devices is not an error.
                Some(Reading { temp: "0.0".to_owned(), measured: "".to_owned() })
            } else {
                te_reading(&devices[0])
            }
        },
        _ => None,
    }
}

/// Extracts the weather reading from a parsed weather-API document.
pub fn weather_reading(doc: &Json) -> (r: Option<Reading>)
    ensures
        match r {
            Some(rd) => spec_weather_reading(*doc) == Some(rd@),
            None => spec_weather_reading(*doc) is None,
        },
{
    let cur = match doc.get("current") {
        Some(v) => v,
        None => { return None; },
    };
    let temp = match cur.get("temp_c") {
        Some(v) => match v {
            Json::Num(t) => t.clone(),
            _ => { return None; },
        },
        None => { return None; },
    };
    match cur.get("last_updated") {
        Some(v) => match v {
            Json::Str(m) => Some(Reading { temp, measured: m.clone() }),
            _ => None,
        },
        None => None,
    }
}

/// Parses a device-API response body and extracts the reading.
pub fn device_reading_from_body(body: &str) -> (r: Result<Reading, FetchError>)
    ensures
        match spec_parse_json(body@) {
            None => r == Err::<Reading, FetchError>(FetchError::Syntax),
            Some(doc) => match spec_device_reading(doc) {
                None => r == Err::<Reading, FetchError>(FetchError::Shape),
                Some(v) => r matches Ok(rd) && rd@ == v,
            },
        },
{
    match parse_json(body) {
        None => Err(FetchError::Syntax),
        Some(doc) => match device_reading(&doc) {
            None => Err(FetchError::Shape),
            Some(rd) => Ok(rd),
        },
    }
}

/// Parses a weather-API response body and extracts the reading.
pub fn weather_reading_from_body(body: &str) -> (r: Result<Reading, FetchError>)
    ensures
        match spec_parse_json(body@) {
            None => r == Err::<Reading, FetchError>(FetchError::Syntax),
            Some(doc) => match spec_weather_reading(doc) {
                None => r == Err::<Reading, FetchError>(FetchError::Shape),
                Some(v) => r matches Ok(rd) && rd@ == v,
            },
        },
{
    match parse_json(body) {
        None => Err(FetchError::Syntax),
        Some(doc) => match weather_reading(&doc) {
            None => Err(FetchError::Shape),
            Some(rd) => Ok(rd),
        },
    }
}

/// The first-element-only policy: the device reading depends on the
/// first device alone, so two device lists that agree on their first
/// element yield the same reading, whatever follows it.
pub proof fn lemma_first_device_only(a: Vec<Json>, b: Vec<Json>)
    requires
        a@.len() > 0,
        b@.len() > 0,
        a@[0] == b@[0],
    ensures
        spec_device_reading(Json::Arr(a)) == spec_device_reading(Json::Arr(b)),
{
}

} // verus!
