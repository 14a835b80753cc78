//! The run's fixed configuration: the two API endpoints, the weather
//! query's city, and the request strings built from them.
use vstd::prelude::*;
use vstd::string::*;

verus! {

/// The immutable configuration of one run, built once at startup and
/// passed by reference to whoever issues the requests.
#[derive(Debug)]
pub struct Config {
    /// The device API's endpoint.
    pub device_endpoint: String,
    /// The weather API's endpoint.
    pub weather_endpoint: String,
    /// The fixed city the weather query asks about.
    pub city: String,
    /// The air-quality-index switch sent with the weather query.
    pub aqi: String,
}

impl Config {
    /// The stock configuration: the two public endpoints and the fixed
    /// city.
    pub fn new() -> (c: Config)
        ensures
            c.device_endpoint@ == "https://api.nature.global/1/devices"@,
            c.weather_endpoint@ == "https://api.weatherapi.com/v1/current.json"@,
            c.city@ == "Himeji"@,
            c.aqi@ == "no"@,
    {
        Config {
            device_endpoint: "https://api.nature.global/1/devices".to_owned(),
            weather_endpoint: "https://api.weatherapi.com/v1/current.json".to_owned(),
            city: "Himeji".to_owned(),
            aqi: "no".to_owned(),
        }
    }
}

/// The weather query URL. The air-quality parameter is deliberately
/// spelled `api`, not the provider's documented `aqi`: the request has
/// always been sent that way, so the spelling is kept and pinned by a
/// test rather than silently corrected.
pub open spec fn spec_weather_url(
    endpoint: Seq<char>,
    key: Seq<char>,
    city: Seq<char>,
    aqi: Seq<char>,
) -> Seq<char> {
    endpoint + "?key="@ + key + "&q="@ + city + "&api="@ + aqi
}

/// Builds the weather query URL for a given API key.
pub fn weather_url(cfg: &Config, key: &str) -> (r: String)
    ensures
        r@ == spec_weather_url(cfg.weather_endpoint@, key@, cfg.city@, cfg.aqi@),
{
    let mut s = cfg.weather_endpoint.clone();
    s.append("?key=");
    s.append(key);
    s.append("&q=");
    s.append(cfg.city.as_str());
    s.append("&api=");
    s.append(cfg.aqi.as_str());
    s
}

/// Builds the `Authorization` header value for the device API.
pub fn auth_header(token: &str) -> (r: String)
    ensures
        r@ == "Bearer "@ + token@,
{
    let mut s = "Bearer ".to_owned();
    s.append(token);
    s
}

} // verus!
