use vstd::prelude::*;
use vstd::string::StringExecFns;

use crate::json::Json;
use crate::json::opt_centi;
use crate::json::opt_get;
use crate::json::opt_item;
use crate::json::opt_text;
use crate::json::opt_whole;
use crate::provider::Provider;
use crate::utils::centi_to_degrees;
use crate::utils::i32_to_string;
use crate::utils::kelvin_to_celsius;
use crate::utils::spec_centi_to_degrees;
use crate::utils::spec_idec;
use crate::utils::spec_kelvin_to_celsius;
use crate::utils::spec_udec;
use crate::utils::u64_to_string;

verus! {

/// Errors related to weather decoding.
#[derive(Clone, Copy, Debug, PartialEq, Eq, Structural)]
pub enum WeatherError {
    /// A required field is missing or has the wrong type.
    BadResponse,
    /// The response body could not be parsed as JSON at all.
    JsonError,
}

/// The model for OpenWeather weather info: min/max/current temperature
/// in whole degrees Celsius, weather description, humidity.
#[derive(Debug)]
pub struct OpenWeather {
    pub min_temperature: i32,
    pub max_temperature: i32,
    pub current_temperature: i32,
    pub description: String,
    pub humidity_percent: u8,
}

/// The WeatherAPI weather response model: current and "feels like"
/// temperature in whole degrees Celsius, description, humidity.
#[derive(Debug)]
pub struct Weatherapi {
    pub current_temperature: i32,
    pub feels_like: i32,
    pub description: String,
    pub humidity_percent: u8,
}

/// Weather enum that abstracts over the provider-dependent weather models.
#[derive(Debug)]
pub enum Weather {
    OpenWeather(OpenWeather),
    Weatherapi(Weatherapi),
}

/// The field values an OpenWeather record is built from, after unit
/// conversion: temperatures in whole degrees Celsius, the humidity
/// truncated to a byte as the record stores it.
pub struct OpenWeatherFields {
    pub min: int,
    pub max: int,
    pub cur: int,
    pub description: Seq<char>,
    pub humidity: int,
}

/// The field values a WeatherAPI record is built from, after unit
/// conversion.
pub struct WeatherapiFields {
    pub cur: int,
    pub feels: int,
    pub description: Seq<char>,
    pub humidity: int,
}

/// The OpenWeather extraction: `weather[0].description`, `main.temp`,
/// `main.temp_min`, `main.temp_max` (Kelvin, converted to Celsius),
/// `main.humidity` (non-negative whole number). Defined only when every
/// field is present with the right type.
pub open spec fn spec_openweather_fields(json: Json) -> Option<OpenWeatherFields> {
    let desc = opt_text(opt_get(opt_item(json.spec_get("weather"@), 0), "description"@));
    let main = json.spec_get("main"@);
    let temp = opt_centi(opt_get(main, "temp"@));
    let tmin = opt_centi(opt_get(main, "temp_min"@));
    let tmax = opt_centi(opt_get(main, "temp_max"@));
    let hum = opt_whole(opt_get(main, "humidity"@));
    match (desc, temp, tmin, tmax, hum) {
        (Some(d), Some(t), Some(tn), Some(tx), Some(h)) => Some(
            OpenWeatherFields {
                min: spec_kelvin_to_celsius(tn),
                max: spec_kelvin_to_celsius(tx),
                cur: spec_kelvin_to_celsius(t),
                description: d,
                humidity: h % 256,
            },
        ),
        _ => None,
    }
}

/// The WeatherAPI extraction, all under the `current` object:
/// `condition.text`, `temp_c`, `feelslike_c` (Celsius, rounded),
/// `humidity` (non-negative whole number). Defined only when every
/// field is present with the right type.
pub open spec fn spec_weatherapi_fields(json: Json) -> Option<WeatherapiFields> {
    let cur = json.spec_get("current"@);
    let desc = opt_text(opt_get(opt_get(cur, "condition"@), "text"@));
    let t = opt_centi(opt_get(cur, "temp_c"@));
    let fl = opt_centi(opt_get(cur, "feelslike_c"@));
    let hum = opt_whole(opt_get(cur, "humidity"@));
    match (desc, t, fl, hum) {
        (Some(d), Some(tc), Some(f), Some(h)) => Some(
            WeatherapiFields {
                cur: spec_centi_to_degrees(tc),
                feels: spec_centi_to_degrees(f),
                description: d,
                humidity: h % 256,
            },
        ),
        _ => None,
    }
}

/// Whether an OpenWeather record holds exactly the given field values.
pub open spec fn openweather_matches(w: OpenWeather, f: OpenWeatherFields) -> bool {
    &&& w.min_temperature as int == f.min
    &&& w.max_temperature as int == f.max
    &&& w.current_temperature as int == f.cur
    &&& w.description@ == f.description
    &&& w.humidity_percent as int == f.humidity
}

/// Whether a WeatherAPI record holds exactly the given field values.
pub open spec fn weatherapi_matches(w: Weatherapi, f: WeatherapiFields) -> bool {
    &&& w.current_temperature as int == f.cur
    &&& w.feels_like as int == f.feels
    &&& w.description@ == f.description
    &&& w.humidity_percent as int == f.humidity
}

/// The fixed one-line rendering of an OpenWeather record.
pub open spec fn spec_openweather_human(w: OpenWeather) -> Seq<char> {
    "Today is "@ + w.description@ + ", minimum temperature: "@ + spec_idec(
        w.min_temperature as int,
    ) + ", maximum temperature: "@ + spec_idec(w.max_temperature as int)
        + ", current temperature: "@ + spec_idec(w.current_temperature as int) + ", humidity: "@
        + spec_udec(w.humidity_percent as nat) + "%."@
}

/// The fixed one-line rendering of a WeatherAPI record.
pub open spec fn spec_weatherapi_human(w: Weatherapi) -> Seq<char> {
    "Today is "@ + w.description@ + ", current temperature: "@ + spec_idec(
        w.current_temperature as int,
    ) + ", feels like: "@ + spec_idec(w.feels_like as int) + ", humidity: "@ + spec_udec(
        w.humidity_percent as nat,
    ) + "%."@
}

/// The rendering of a normalized weather record, provider-specific.
pub open spec fn spec_weather_human(w: Weather) -> Seq<char> {
    match w {
        Weather::OpenWeather(x) => spec_openweather_human(x),
        Weather::Weatherapi(x) => spec_weatherapi_human(x),
    }
}

impl OpenWeather {
    /// Build a record from Kelvin temperatures in hundredths of a degree,
    /// a description, and a raw humidity value (truncated to a byte).
    pub fn new(
        min_temperature: i64,
        max_temperature: i64,
        current_temperature: i64,
        description: &str,
        humidity_percent: u64,
    ) -> (r: Self)
        ensures
            r.min_temperature as int == spec_kelvin_to_celsius(min_temperature as int),
            r.max_temperature as int == spec_kelvin_to_celsius(max_temperature as int),
            r.current_temperature as int == spec_kelvin_to_celsius(current_temperature as int),
            r.description@ == description@,
            r.humidity_percent as int == (humidity_percent as int) % 256,
    {
        Self {
            min_temperature: kelvin_to_celsius(min_temperature),
            max_temperature: kelvin_to_celsius(max_temperature),
            current_temperature: kelvin_to_celsius(current_temperature),
            description: description.to_owned(),
            humidity_percent: (humidity_percent % 256) as u8,
        }
    }

    /// Extract an OpenWeather record from a response body; fails with
    /// `BadResponse` as soon as any required field is missing or
    /// mistyped, so no partial record is ever produced.
    pub fn from_json(json: &Json) -> (r: Result<Self, WeatherError>)
        ensures
            (match spec_openweather_fields(*json) {
                Some(f) => r is Ok && openweather_matches(r->Ok_0, f),
                None => r == Err::<OpenWeather, WeatherError>(WeatherError::BadResponse),
            }),
    {
        let desc: &String = match json.get("weather") {
            Some(w) => match w.item(0) {
                Some(first) => match first.get("description") {
                    Some(d) => match d.as_text() {
                        Some(s) => s,
                        None => { return Err(WeatherError::BadResponse); },
                    },
                    None => { return Err(WeatherError::BadResponse); },
                },
                None => { return Err(WeatherError::BadResponse); },
            },
            None => { return Err(WeatherError::BadResponse); },
        };
        let main = match json.get("main") {
            Some(m) => m,
            None => { return Err(WeatherError::BadResponse); },
        };
        let current_temperature = match main.get("temp") {
            Some(v) => match v.as_centi() {
                Some(c) => c,
                None => { return Err(WeatherError::BadResponse); },
            },
            None => { return Err(WeatherError::BadResponse); },
        };
        let min_temperature = match main.get("temp_min") {
            Some(v) => match v.as_centi() {
                Some(c) => c,
                None => { return Err(WeatherError::BadResponse); },
            },
            None => { return Err(WeatherError::BadResponse); },
        };
        let max_temperature = match main.get("temp_max") {
            Some(v) => match v.as_centi() {
                Some(c) => c,
                None => { return Err(WeatherError::BadResponse); },
            },
            None => { return Err(WeatherError::BadResponse); },
        };
        let humidity = match main.get("humidity") {
            Some(v) => match v.as_whole() {
                Some(h) => h,
                None => { return Err(WeatherError::BadResponse); },
            },
            None => { return Err(WeatherError::BadResponse); },
        };
        Ok(Self::new(min_temperature, max_temperature, current_temperature, desc.as_str(), humidity))
    }

    /// Render the record as its fixed human-readable sentence.
    pub fn into_human(self) -> (r: String)
        ensures
            r@ == spec_openweather_human(self),
    {
        let mut s = "Today is ".to_owned();
        s.append(self.description.as_str());
        s.append(", minimum temperature: ");
        let mn = i32_to_string(self.min_temperature);
        s.append(mn.as_str());
        s.append(", maximum temperature: ");
        let mx = i32_to_string(self.max_temperature);
        s.append(mx.as_str());
        s.append(", current temperature: ");
        let cur = i32_to_string(self.current_temperature);
        s.append(cur.as_str());
        s.append(", humidity: ");
        let hum = u64_to_string(self.humidity_percent as u64);
        s.append(hum.as_str());
        s.append("%.");
        s
    }
}

impl Weatherapi {
    /// Build a record from Celsius temperatures in hundredths of a
    /// degree, a description, and a raw humidity value (truncated to a
    /// byte).
    pub fn new(
        current_temperature: i64,
        feels_like: i64,
        description: &str,
        humidity_percent: u64,
    ) -> (r: Self)
        ensures
            r.current_temperature as int == spec_centi_to_degrees(current_temperature as int),
            r.feels_like as int == spec_centi_to_degrees(feels_like as int),
            r.description@ == description@,
            r.humidity_percent as int == (humidity_percent as int) % 256,
    {
        Self {
            current_temperature: centi_to_degrees(current_temperature),
            feels_like: centi_to_degrees(feels_like),
            description: description.to_owned(),
            humidity_percent: (humidity_percent % 256) as u8,
        }
    }

    /// Extract a WeatherAPI record from a response body; fails with
    /// `BadResponse` as soon as any required field is missing or
    /// mistyped, so no partial record is ever produced.
    pub fn from_json(json: &Json) -> (r: Result<Self, WeatherError>)
        ensures
            (match spec_weatherapi_fields(*json) {
                Some(f) => r is Ok && weatherapi_matches(r->Ok_0, f),
                None => r == Err::<Weatherapi, WeatherError>(WeatherError::BadResponse),
            }),
    {
        let current = match json.get("current") {
            Some(c) => c,
            None => { return Err(WeatherError::BadResponse); },
        };
        let desc: &String = match current.get("condition") {
            Some(c) => match c.get("text") {
                Some(t) => match t.as_text() {
                    Some(s) => s,
                    None => { return Err(WeatherError::BadResponse); },
                },
                None => { return Err(WeatherError::BadResponse); },
            },
            None => { return Err(WeatherError::BadResponse); },
        };
        let current_temperature = match current.get("temp_c") {
            Some(v) => match v.as_centi() {
                Some(c) => c,
                None => { return Err(WeatherError::BadResponse); },
            },
            None => { return Err(WeatherError::BadResponse); },
        };
        let feels_like = match current.get("feelslike_c") {
            Some(v) => match v.as_centi() {
                Some(c) => c,
                None => { return Err(WeatherError::BadResponse); },
            },
            None => { return Err(WeatherError::BadResponse); },
        };
        let humidity = match current.get("humidity") {
            Some(v) => match v.as_whole() {
                Some(h) => h,
                None => { return Err(WeatherError::BadResponse); },
            },
            None => { return Err(WeatherError::BadResponse); },
        };
        Ok(Self::new(current_temperature, feels_like, desc.as_str(), humidity))
    }

    /// Render the record as its fixed human-readable sentence.
    pub fn into_human(self) -> (r: String)
        ensures
            r@ == spec_weatherapi_human(self),
    {
        let mut s = "Today is ".to_owned();
        s.append(self.description.as_str());
        s.append(", current temperature: ");
        let cur = i32_to_string(self.current_temperature);
        s.append(cur.as_str());
        s.append(", feels like: ");
        let fl = i32_to_string(self.feels_like);
        s.append(fl.as_str());
        s.append(", humidity: ");
        let hum = u64_to_string(self.humidity_percent as u64);
        s.append(hum.as_str());
        s.append("%.");
        s
    }
}

impl Weather {
    /// Create a `Weather` model from a response body, dispatching on the
    /// provider the body came from.
    pub fn from_json(json: Json, provider: Provider) -> (r: Result<Self, WeatherError>)
        ensures
            (match provider {
                Provider::OpenWeather => match spec_openweather_fields(json) {
                    Some(f) => r is Ok && (r->Ok_0 matches Weather::OpenWeather(w)
                        && openweather_matches(w, f)),
                    None => r == Err::<Weather, WeatherError>(WeatherError::BadResponse),
                },
                Provider::Weatherapi => match spec_weatherapi_fields(json) {
                    Some(f) => r is Ok && (r->Ok_0 matches Weather::Weatherapi(w)
                        && weatherapi_matches(w, f)),
                    None => r == Err::<Weather, WeatherError>(WeatherError::BadResponse),
                },
            }),
    {
        match provider {
            Provider::OpenWeather => match OpenWeather::from_json(&json) {
                Ok(w) => Ok(Weather::OpenWeather(w)),
                Err(e) => Err(e),
            },
            Provider::Weatherapi => match Weatherapi::from_json(&json) {
                Ok(w) => Ok(Weather::Weatherapi(w)),
                Err(e) => Err(e),
            },
        }
    }

    /// Get the human-readable description of the weather.
    pub fn into_human(self) -> (r: String)
        ensures
            r@ == spec_weather_human(self),
    {
        match self {
            Weather::OpenWeather(w) => w.into_human(),
            Weather::Weatherapi(w) => w.into_human(),
        }
    }
}

} // verus!
