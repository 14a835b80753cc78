//! The run orchestrator: a linear state machine that sequences loading
//! the credentials, fetching the reading(s) and appending the row. Every
//! step that touches the outside world is an event handed in by the
//! caller; each transition, and with it the whole run's policy — fail
//! fast, never retry, never write after a failed fetch — is verified.
use vstd::prelude::*;
use crate::creds::{Credentials, CredentialsV, Mode, spec_credentials, credentials_from_doc,
    spec_expand_home, expand_home};
use crate::fetch::{Reading, ReadingV, spec_device_reading, spec_weather_reading, device_reading,
    weather_reading};
use crate::parse::{parse_json, parse_yaml, spec_parse_json, spec_parse_yaml};

verus! {

/// The row to append, one per schema variant: a single reading with its
/// timestamp, or the indoor and outdoor pair.
#[derive(Debug)]
pub enum Row {
    Single { temp: String, measured: String },
    Dual {
        room_temp: String,
        room_measured: String,
        weather_temp: String,
        weather_measured: String,
    },
}

/// The mathematical value of [`Row`].
pub enum RowV {
    Single { temp: Seq<char>, measured: Seq<char> },
    Dual {
        room_temp: Seq<char>,
        room_measured: Seq<char>,
        weather_temp: Seq<char>,
        weather_measured: Seq<char>,
    },
}

impl View for Row {
    type V = RowV;

    open spec fn view(&self) -> RowV {
        match self {
            Row::Single { temp, measured } => RowV::Single { temp: temp@, measured: measured@ },
            Row::Dual { room_temp, room_measured, weather_temp, weather_measured } => RowV::Dual {
                room_temp: room_temp@,
                room_measured: room_measured@,
                weather_temp: weather_temp@,
                weather_measured: weather_measured@,
            },
        }
    }
}

/// Why a run ended abnormally. Transport and store messages are carried
/// verbatim from the caller's event.
#[derive(Debug)]
pub enum RunError {
    /// The token file could not be read.
    TokenRead(String),
    /// The token file is not a well-formed document.
    TokenSyntax,
    /// The token file lacks a credential field, or one has the wrong type.
    TokenShape,
    /// The device API could not be reached.
    DeviceTransport(String),
    /// The device API's body is not well-formed JSON.
    DeviceSyntax,
    /// The device API's body lacks an expected field.
    DeviceShape,
    /// The weather API could not be reached.
    WeatherTransport(String),
    /// The weather API's body is not well-formed JSON.
    WeatherSyntax,
    /// The weather API's body lacks an expected field.
    WeatherShape,
    /// The row could not be appended.
    StoreFailed(String),
    /// The event does not answer the step the run was waiting on.
    UnexpectedEvent,
}

/// The mathematical value of [`RunError`].
pub enum RunErrorV {
    TokenRead(Seq<char>),
    TokenSyntax,
    TokenShape,
    DeviceTransport(Seq<char>),
    DeviceSyntax,
    DeviceShape,
    WeatherTransport(Seq<char>),
    WeatherSyntax,
    WeatherShape,
    StoreFailed(Seq<char>),
    UnexpectedEvent,
}

impl View for RunError {
    type V = RunErrorV;

    open spec fn view(&self) -> RunErrorV {
        match self {
            RunError::TokenRead(m) => RunErrorV::TokenRead(m@),
            RunError::TokenSyntax => RunErrorV::TokenSyntax,
            RunError::TokenShape => RunErrorV::TokenShape,
            RunError::DeviceTransport(m) => RunErrorV::DeviceTransport(m@),
            RunError::DeviceSyntax => RunErrorV::DeviceSyntax,
            RunError::DeviceShape => RunErrorV::DeviceShape,
            RunError::WeatherTransport(m) => RunErrorV::WeatherTransport(m@),
            RunError::WeatherSyntax => RunErrorV::WeatherSyntax,
            RunError::WeatherShape => RunErrorV::WeatherShape,
            RunError::StoreFailed(m) => RunErrorV::StoreFailed(m@),
            RunError::UnexpectedEvent => RunErrorV::UnexpectedEvent,
        }
    }
}

/// Where a run stands, and what it is waiting on. The `Await` states
/// carry everything the caller needs to perform the next outside step.
#[derive(Debug)]
pub enum State {
    /// Waiting for the token file at `path` to be read.
    AwaitToken { path: String },
    /// Waiting for the device API's response.
    AwaitDevice { device_token: String, weather_key: Option<String> },
    /// Waiting for the weather API's response.
    AwaitWeather { key: String, room: Reading },
    /// Waiting for `row` to be appended.
    AwaitPersist { row: Row },
    /// The row was appended; the run is over.
    Done,
    /// The run ended abnormally; nothing further happens.
    Failed { reason: RunError },
}

/// The mathematical value of [`State`].
pub enum StateV {
    AwaitToken { path: Seq<char> },
    AwaitDevice { device_token: Seq<char>, weather_key: Option<Seq<char>> },
    AwaitWeather { key: Seq<char>, room: ReadingV },
    AwaitPersist { row: RowV },
    Done,
    Failed { reason: RunErrorV },
}

impl View for State {
    type V = StateV;

    open spec fn view(&self) -> StateV {
        match self {
            State::AwaitToken { path } => StateV::AwaitToken { path: path@ },
            State::AwaitDevice { device_token, weather_key } => StateV::AwaitDevice {
                device_token: device_token@,
                weather_key: match weather_key {
                    Some(k) => Some(k@),
                    None => None,
                },
            },
            State::AwaitWeather { key, room } => StateV::AwaitWeather {
                key: key@,
                room: room@,
            },
            State::AwaitPersist { row } => StateV::AwaitPersist { row: row@ },
            State::Done => StateV::Done,
            State::Failed { reason } => StateV::Failed { reason: reason@ },
        }
    }
}

/// What the outside world answered: the token file's text, a response
/// body, or the store's outcome — each either the value or an error
/// message.
#[derive(Debug)]
pub enum Event {
    TokenText(Result<String, String>),
    DeviceBody(Result<String, String>),
    WeatherBody(Result<String, String>),
    Persisted(Result<(), String>),
}

/// The mathematical value of [`Event`].
pub enum EventV {
    TokenText(Result<Seq<char>, Seq<char>>),
    DeviceBody(Result<Seq<char>, Seq<char>>),
    WeatherBody(Result<Seq<char>, Seq<char>>),
    Persisted(Result<(), Seq<char>>),
}

impl View for Event {
    type V = EventV;

    open spec fn view(&self) -> EventV {
        match self {
            Event::TokenText(Ok(t)) => EventV::TokenText(Ok(t@)),
            Event::TokenText(Err(m)) => EventV::TokenText(Err(m@)),
            Event::DeviceBody(Ok(t)) => EventV::DeviceBody(Ok(t@)),
            Event::DeviceBody(Err(m)) => EventV::DeviceBody(Err(m@)),
            Event::WeatherBody(Ok(t)) => EventV::WeatherBody(Ok(t@)),
            Event::WeatherBody(Err(m)) => EventV::WeatherBody(Err(m@)),
            Event::Persisted(Ok(u)) => EventV::Persisted(Ok(*u)),
            Event::Persisted(Err(m)) => EventV::Persisted(Err(m@)),
        }
    }
}

/// The one transition function of the run. Each step either advances to
/// the next awaited outside action or fails for good; no step retries,
/// and a persist step can only follow a fetched reading.
pub open spec fn spec_next(mode: Mode, s: StateV, e: EventV) -> StateV {
    match (s, e) {
        (StateV::AwaitToken { path }, EventV::TokenText(res)) => match res {
            Err(m) => StateV::Failed { reason: RunErrorV::TokenRead(m) },
            Ok(text) => match spec_parse_yaml(text) {
                None => StateV::Failed { reason: RunErrorV::TokenSyntax },
                Some(doc) => match spec_credentials(mode, doc) {
                    None => StateV::Failed { reason: RunErrorV::TokenShape },
                    Some(CredentialsV::Single { token }) => StateV::AwaitDevice {
                        device_token: token,
                        weather_key: None,
                    },
                    Some(CredentialsV::Dual { remo, weatherapi }) => StateV::AwaitDevice {
                        device_token: remo,
                        weather_key: Some(weatherapi),
                    },
                },
            },
        },
        (StateV::AwaitDevice { device_token, weather_key }, EventV::DeviceBody(res)) => match res {
            Err(m) => StateV::Failed { reason: RunErrorV::DeviceTransport(m) },
            Ok(body) => match spec_parse_json(body) {
                None => StateV::Failed { reason: RunErrorV::DeviceSyntax },
                Some(doc) => match spec_device_reading(doc) {
                    None => StateV::Failed { reason: RunErrorV::DeviceShape },
                    Some(room) => match weather_key {
                        None => StateV::AwaitPersist {
                            row: RowV::Single { temp: room.temp, measured: room.measured },
                        },
                        Some(key) => StateV::AwaitWeather { key, room },
                    },
                },
            },
        },
        (StateV::AwaitWeather { key: _, room }, EventV::WeatherBody(res)) => match res {
            Err(m) => StateV::Failed { reason: RunErrorV::WeatherTransport(m) },
            Ok(body) => match spec_parse_json(body) {
                None => StateV::Failed { reason: RunErrorV::WeatherSyntax },
                Some(doc) => match spec_weather_reading(doc) {
                    None => StateV::Failed { reason: RunErrorV::WeatherShape },
                    Some(outdoor) => StateV::AwaitPersist {
                        row: RowV::Dual {
                            room_temp: room.temp,
                            room_measured: room.measured,
                            weather_temp: outdoor.temp,
                            weather_measured: outdoor.measured,
                        },
                    },
                },
            },
        },
        (StateV::AwaitPersist { .. }, EventV::Persisted(res)) => match res {
            Ok(_) => StateV::Done,
            Err(m) => StateV::Failed { reason: RunErrorV::StoreFailed(m) },
        },
        _ => StateV::Failed { reason: RunErrorV::UnexpectedEvent },
    }
}

/// The first state of a run: waiting for the token file, its path
/// resolved against the home directory before anything is opened.
pub fn start(token_path: &str, home: &str) -> (s: State)
    ensures
        s@ == (StateV::AwaitToken { path: spec_expand_home(token_path@, home@) }),
{
    State::AwaitToken { path: expand_home(token_path, home) }
}

/// Advances the run by one step.
pub fn next(mode: Mode, state: State, event: Event) -> (r: State)
    ensures
        r@ == spec_next(mode, state@, event@),
{
    match (state, event) {
        (State::AwaitToken { path: _ }, Event::TokenText(res)) => match res {
            Err(m) => State::Failed { reason: RunError::TokenRead(m) },
            Ok(text) => match parse_yaml(text.as_str()) {
                None => State::Failed { reason: RunError::TokenSyntax },
                Some(doc) => match credentials_from_doc(mode, &doc) {
                    None => State::Failed { reason: RunError::TokenShape },
                    Some(Credentials::Single { token }) => State::AwaitDevice {
                        device_token: token,
                        weather_key: None,
                    },
                    Some(Credentials::Dual { remo, weatherapi }) => State::AwaitDevice {
                        device_token: remo,
                        weather_key: Some(weatherapi),
                    },
                },
            },
        },
        (State::AwaitDevice { device_token: _, weather_key }, Event::DeviceBody(res)) => match res {
            Err(m) => State::Failed { reason: RunError::DeviceTransport(m) },
            Ok(body) => match parse_json(body.as_str()) {
                None => State::Failed { reason: RunError::DeviceSyntax },
                Some(doc) => match device_reading(&doc) {
                    None => State::Failed { reason: RunError::DeviceShape },
                    Some(room) => match weather_key {
                        None => State::AwaitPersist {
                            row: Row::Single { temp: room.temp, measured: room.measured },
                        },
                        Some(key) => State::AwaitWeather { key, room },
                    },
                },
            },
        },
        (State::AwaitWeather { key: _, room }, Event::WeatherBody(res)) => match res {
            Err(m) => State::Failed { reason: RunError::WeatherTransport(m) },
            Ok(body) => match parse_json(body.as_str()) {
                None => State::Failed { reason: RunError::WeatherSyntax },
                Some(doc) => match weather_reading(&doc) {
                    None => State::Failed { reason: RunError::WeatherShape },
                    Some(outdoor) => State::AwaitPersist {
                        row: Row::Dual {
                            room_temp: room.temp,
                            room_measured: room.measured,
                            weather_temp: outdoor.temp,
                            weather_measured: outdoor.measured,
                        },
                    },
                },
            },
        },
        (State::AwaitPersist { row: _ }, Event::Persisted(res)) => match res {
            Ok(_) => State::Done,
            Err(m) => State::Failed { reason: RunError::StoreFailed(m) },
        },
        _ => State::Failed { reason: RunError::UnexpectedEvent },
    }
}

/// The SQL text of the one statement a run executes: the capture
/// timestamp of the dual row comes from the database engine's own local
/// clock, never from this process.
pub fn insert_sql(row: &Row) -> (r: String)
    ensures
        row is Single ==> r@ == "insert into temp (temp,created_at) values (?,?)"@,
        row is Dual ==> r@
            == "insert into temp (stored,room_temp,room_measured,weather_temp,weather_measured) values (datetime('now','localtime'),?,?,?,?)"@,
{
    match row {
        Row::Single { .. } => "insert into temp (temp,created_at) values (?,?)".to_owned(),
        Row::Dual { .. } =>
            "insert into temp (stored,room_temp,room_measured,weather_temp,weather_measured) values (datetime('now','localtime'),?,?,?,?)".to_owned(),
    }
}

/// A malformed response body from either remote API ends the run for
/// good: whatever state the run is in, the step taken on such an event
/// is a failure, so no row is ever written after one.
pub proof fn lemma_malformed_response_fails(mode: Mode, s: StateV, e: EventV)
    requires
        (e matches EventV::DeviceBody(res) && res matches Ok(body) && spec_parse_json(body)
            is None) || (e matches EventV::WeatherBody(res) && res matches Ok(body)
            && spec_parse_json(body) is None),
    ensures
        spec_next(mode, s, e) is Failed,
{
}

/// A persist step arises only from a successfully fetched reading: the
/// single transition into `AwaitPersist` is a device response in
/// single-reading mode or a weather response in dual mode, and in either
/// case the response arrived and was understood.
pub proof fn lemma_persist_only_after_fetch(mode: Mode, s: StateV, e: EventV)
    ensures
        spec_next(mode, s, e) is AwaitPersist ==> ((s is AwaitDevice && (e matches
        EventV::DeviceBody(res) && res is Ok)) || (s is AwaitWeather && (e matches
        EventV::WeatherBody(res) && res is Ok))),
{
}

/// A finished run cannot be driven further: after `Done` or a failure,
/// every event is answered with a failure, so no step is ever retried.
pub proof fn lemma_terminal_states_absorb(mode: Mode, s: StateV, e: EventV)
    requires
        s is Done || s is Failed,
    ensures
        spec_next(mode, s, e) is Failed,
{
}

/// The stored row carries the fetched values untouched, dual variant:
/// from the readings the two bodies yield, the run reaches a persist
/// step whose row holds exactly those temperatures and timestamps.
pub proof fn lemma_stored_row_matches_readings(
    mode: Mode,
    token: Seq<char>,
    key: Seq<char>,
    device_body: Seq<char>,
    weather_body: Seq<char>,
    room: ReadingV,
    outdoor: ReadingV,
)
    requires
        spec_parse_json(device_body) matches Some(d) && spec_device_reading(d) == Some(room),
        spec_parse_json(weather_body) matches Some(w) && spec_weather_reading(w) == Some(outdoor),
    ensures
        ({
            let s1 = spec_next(
                mode,
                StateV::AwaitDevice { device_token: token, weather_key: Some(key) },
                EventV::DeviceBody(Ok(device_body)),
            );
            &&& s1 == (StateV::AwaitWeather { key, room })
            &&& spec_next(mode, s1, EventV::WeatherBody(Ok(weather_body))) == (
            StateV::AwaitPersist {
                row: RowV::Dual {
                    room_temp: room.temp,
                    room_measured: room.measured,
                    weather_temp: outdoor.temp,
                    weather_measured: outdoor.measured,
                },
            })
        }),
{
}

/// The stored row carries the fetched values untouched, single variant.
pub proof fn lemma_stored_row_matches_reading_single(
    mode: Mode,
    token: Seq<char>,
    device_body: Seq<char>,
    room: ReadingV,
)
    requires
        spec_parse_json(device_body) matches Some(d) && spec_device_reading(d) == Some(room),
    ensures
        spec_next(
            mode,
            StateV::AwaitDevice { device_token: token, weather_key: None },
            EventV::DeviceBody(Ok(device_body)),
        ) == (StateV::AwaitPersist {
            row: RowV::Single { temp: room.temp, measured: room.measured },
        }),
{
}

} // verus!
