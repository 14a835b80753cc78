use templog::config::Config;
use templog::config::auth_header;
use templog::config::weather_url;
use templog::creds::Mode;
use templog::run::{Event, Row, RunError, State};
use templog::run::insert_sql;
use templog::run::next;
use templog::run::start;

fn ok(s: &str) -> Result<String, String> {
    Ok(s.to_string())
}

#[test]
fn full_dual_run_stores_fetched_values() {
    let state = start("~/.remo/token.yml", "/home/u");
    match &state {
        State::AwaitToken { path } => assert_eq!(path, "/home/u/.remo/token.yml"),
        _ => panic!("expected to wait on the token file"),
    }
    let state = next(Mode::Dual, state, Event::TokenText(ok("remo: R\nweatherapi: W\n")));
    match &state {
        State::AwaitDevice { device_token, weather_key } => {
            assert_eq!(device_token, "R");
            assert_eq!(weather_key.as_deref(), Some("W"));
        },
        _ => panic!("expected to wait on the device API"),
    }
    let state = next(
        Mode::Dual,
        state,
        Event::DeviceBody(ok(
            "[{\"newest_events\":{\"te\":{\"val\":21.5,\"created_at\":\"2024-01-01T00:00:00Z\"}}}]",
        )),
    );
    match &state {
        State::AwaitWeather { key, room } => {
            assert_eq!(key, "W");
            assert_eq!(room.temp, "21.5");
        },
        _ => panic!("expected to wait on the weather API"),
    }
    let state = next(
        Mode::Dual,
        state,
        Event::WeatherBody(ok("{\"current\":{\"temp_c\": 5.2, \"last_updated\":\"2024-01-01 09:00\"}}")),
    );
    match &state {
        State::AwaitPersist { row } => match row {
            Row::Dual { room_temp, room_measured, weather_temp, weather_measured } => {
                assert_eq!(room_temp, "21.5");
                assert_eq!(room_measured, "2024-01-01T00:00:00Z");
                assert_eq!(weather_temp, "5.2");
                assert_eq!(weather_measured, "2024-01-01 09:00");
            },
            _ => panic!("expected the dual row"),
        },
        _ => panic!("expected to wait on the store"),
    }
    let state = next(Mode::Dual, state, Event::Persisted(Ok(())));
    assert!(matches!(state, State::Done));
}

#[test]
fn single_run_stores_reading_with_its_timestamp() {
    let state = State::AwaitDevice { device_token: "T".to_string(), weather_key: None };
    let state = next(
        Mode::Single,
        state,
        Event::DeviceBody(ok(
            "[{\"newest_events\":{\"te\":{\"val\":19.0,\"created_at\":\"2024-02-02T00:00:00Z\"}}}]",
        )),
    );
    match &state {
        State::AwaitPersist { row } => match row {
            Row::Single { temp, measured } => {
                assert_eq!(temp, "19.0");
                assert_eq!(measured, "2024-02-02T00:00:00Z");
            },
            _ => panic!("expected the single row"),
        },
        _ => panic!("expected to wait on the store"),
    }
}

#[test]
fn malformed_device_body_fails_before_any_write() {
    let state = State::AwaitDevice { device_token: "T".to_string(), weather_key: None };
    let state = next(Mode::Single, state, Event::DeviceBody(ok("[{")));
    assert!(matches!(state, State::Failed { reason: RunError::DeviceSyntax }));
}

#[test]
fn malformed_weather_body_fails_before_any_write() {
    let room = match next(
        Mode::Dual,
        State::AwaitDevice { device_token: "T".to_string(), weather_key: Some("W".to_string()) },
        Event::DeviceBody(ok("[]")),
    ) {
        State::AwaitWeather { room, .. } => room,
        _ => panic!("expected to wait on the weather API"),
    };
    let state = next(
        Mode::Dual,
        State::AwaitWeather { key: "W".to_string(), room },
        Event::WeatherBody(ok("{\"current\"")),
    );
    assert!(matches!(state, State::Failed { reason: RunError::WeatherSyntax }));
}

#[test]
fn token_read_error_is_fatal() {
    let state = next(
        Mode::Dual,
        State::AwaitToken { path: "p".to_string() },
        Event::TokenText(Err("no such file".to_string())),
    );
    match state {
        State::Failed { reason: RunError::TokenRead(m) } => assert_eq!(m, "no such file"),
        _ => panic!("expected the read error to be fatal"),
    }
}

#[test]
fn token_syntax_and_shape_errors() {
    let s1 = next(
        Mode::Dual,
        State::AwaitToken { path: "p".to_string() },
        Event::TokenText(ok("{remo: \"R\"")),
    );
    assert!(matches!(s1, State::Failed { reason: RunError::TokenSyntax }));
    let s2 = next(
        Mode::Dual,
        State::AwaitToken { path: "p".to_string() },
        Event::TokenText(ok("remo: R\n")),
    );
    assert!(matches!(s2, State::Failed { reason: RunError::TokenShape }));
}

#[test]
fn transport_errors_are_fatal() {
    let s1 = next(
        Mode::Single,
        State::AwaitDevice { device_token: "T".to_string(), weather_key: None },
        Event::DeviceBody(Err("connect refused".to_string())),
    );
    match s1 {
        State::Failed { reason: RunError::DeviceTransport(m) } => assert_eq!(m, "connect refused"),
        _ => panic!("expected the transport error to be fatal"),
    }
    let s2 = next(
        Mode::Dual,
        State::AwaitWeather {
            key: "W".to_string(),
            room: match next(
                Mode::Dual,
                State::AwaitDevice { device_token: "T".to_string(), weather_key: Some("W".to_string()) },
                Event::DeviceBody(ok("[]")),
            ) {
                State::AwaitWeather { room, .. } => room,
                _ => panic!("expected to wait on the weather API"),
            },
        },
        Event::WeatherBody(Err("dns".to_string())),
    );
    assert!(matches!(s2, State::Failed { reason: RunError::WeatherTransport(_) }));
}

#[test]
fn device_shape_error_is_fatal() {
    let state = next(
        Mode::Single,
        State::AwaitDevice { device_token: "T".to_string(), weather_key: None },
        Event::DeviceBody(ok("[{\"newest_events\":{}}]")),
    );
    assert!(matches!(state, State::Failed { reason: RunError::DeviceShape }));
}

#[test]
fn weather_shape_error_is_fatal() {
    let state = next(
        Mode::Dual,
        State::AwaitWeather {
            key: "W".to_string(),
            room: match next(
                Mode::Dual,
                State::AwaitDevice { device_token: "T".to_string(), weather_key: Some("W".to_string()) },
                Event::DeviceBody(ok("[]")),
            ) {
                State::AwaitWeather { room, .. } => room,
                _ => panic!("expected to wait on the weather API"),
            },
        },
        Event::WeatherBody(ok("{\"current\":{\"temp_c\":\"5\",\"last_updated\":\"u\"}}")),
    );
    assert!(matches!(state, State::Failed { reason: RunError::WeatherShape }));
}

#[test]
fn store_failure_is_fatal() {
    let state = next(
        Mode::Single,
        State::AwaitPersist { row: Row::Single { temp: "1".to_string(), measured: "m".to_string() } },
        Event::Persisted(Err("no such table".to_string())),
    );
    match state {
        State::Failed { reason: RunError::StoreFailed(m) } => assert_eq!(m, "no such table"),
        _ => panic!("expected the store error to be fatal"),
    }
}

#[test]
fn mismatched_event_is_fatal() {
    let state = next(
        Mode::Dual,
        State::AwaitToken { path: "p".to_string() },
        Event::Persisted(Ok(())),
    );
    assert!(matches!(state, State::Failed { reason: RunError::UnexpectedEvent }));
}

#[test]
fn insert_sql_texts() {
    let single = Row::Single { temp: "1".to_string(), measured: "m".to_string() };
    assert_eq!(insert_sql(&single), "insert into temp (temp,created_at) values (?,?)");
    let dual = Row::Dual {
        room_temp: "1".to_string(),
        room_measured: "m".to_string(),
        weather_temp: "2".to_string(),
        weather_measured: "n".to_string(),
    };
    assert_eq!(
        insert_sql(&dual),
        "insert into temp (stored,room_temp,room_measured,weather_temp,weather_measured) \
         values (datetime('now','localtime'),?,?,?,?)"
    );
}

#[test]
fn weather_url_keeps_api_parameter_spelling() {
    let cfg = Config::new();
    let url = weather_url(&cfg, "KEY");
    assert_eq!(url, "https://api.weatherapi.com/v1/current.json?key=KEY&q=Himeji&api=no");
}

#[test]
fn device_endpoint_and_auth_header() {
    let cfg = Config::new();
    assert_eq!(cfg.device_endpoint, "https://api.nature.global/1/devices");
    assert_eq!(auth_header("TOK"), "Bearer TOK");
}
