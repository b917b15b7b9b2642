use weatherapp::json::Json;
use weatherapp::model::Weather;
use weatherapp::model::WeatherError;
use weatherapp::provider::Provider;
use weatherapp::utils::centi_to_degrees;
use weatherapp::utils::kelvin_to_celsius;

/// A well-formed OpenWeather payload; temperatures in hundredths of a Kelvin.
fn openweather_payload(temp: i64, temp_min: i64, temp_max: i64, humidity: i64, desc: &str) -> Json {
    Json::Obj(vec![
        (
            String::from("weather"),
            Json::Arr(vec![Json::Obj(vec![(
                String::from("description"),
                Json::Text(String::from(desc)),
            )])]),
        ),
        (
            String::from("main"),
            Json::Obj(vec![
                (String::from("temp"), Json::Num(temp)),
                (String::from("temp_min"), Json::Num(temp_min)),
                (String::from("temp_max"), Json::Num(temp_max)),
                (String::from("humidity"), Json::Num(humidity)),
            ]),
        ),
    ])
}

/// A well-formed WeatherAPI payload; temperatures in hundredths of a degree Celsius.
fn weatherapi_payload(temp_c: i64, feelslike_c: i64, humidity: i64, desc: &str) -> Json {
    Json::Obj(vec![(
        String::from("current"),
        Json::Obj(vec![
            (
                String::from("condition"),
                Json::Obj(vec![(String::from("text"), Json::Text(String::from(desc)))]),
            ),
            (String::from("temp_c"), Json::Num(temp_c)),
            (String::from("feelslike_c"), Json::Num(feelslike_c)),
            (String::from("humidity"), Json::Num(humidity)),
        ]),
    )])
}

#[test]
fn kelvin_conversion_examples() {
    // 293.15 K is exactly 20 C
    assert_eq!(kelvin_to_celsius(29315), 20);
    // 273.65 K is 0.5 C, which rounds half away from zero to 1
    assert_eq!(kelvin_to_celsius(27365), 1);
    // 272.65 K is -0.5 C, which rounds half away from zero to -1
    assert_eq!(kelvin_to_celsius(27265), -1);
    // 273.15 K is exactly 0 C
    assert_eq!(kelvin_to_celsius(27315), 0);
    assert_eq!(kelvin_to_celsius(30000), 27);
}

#[test]
fn centi_rounding_examples() {
    assert_eq!(centi_to_degrees(1540), 15);
    assert_eq!(centi_to_degrees(1550), 16);
    assert_eq!(centi_to_degrees(-1550), -16);
    assert_eq!(centi_to_degrees(-1549), -15);
    assert_eq!(centi_to_degrees(0), 0);
}

#[test]
fn extreme_temperatures_saturate() {
    assert_eq!(kelvin_to_celsius(i64::MIN), i32::MIN);
    assert_eq!(kelvin_to_celsius(i64::MAX), i32::MAX);
    assert_eq!(centi_to_degrees(i64::MIN), i32::MIN);
    assert_eq!(centi_to_degrees(i64::MAX), i32::MAX);
}

#[test]
fn extreme_temperatures_render() {
    let payload = openweather_payload(i64::MIN, i64::MIN, i64::MAX, 0, "void");
    let weather = Weather::from_json(payload, Provider::OpenWeather).unwrap();
    assert_eq!(
        weather.into_human(),
        "Today is void, minimum temperature: -2147483648, maximum temperature: 2147483647, current temperature: -2147483648, humidity: 0%."
    );
}

#[test]
fn openweather_normalization() {
    // temp=300.0, temp_min=295.0, temp_max=305.0, humidity=50, "clear sky"
    let payload = openweather_payload(30000, 29500, 30500, 5000, "clear sky");
    let weather = Weather::from_json(payload, Provider::OpenWeather).unwrap();
    assert_eq!(
        weather.into_human(),
        "Today is clear sky, minimum temperature: 22, maximum temperature: 32, current temperature: 27, humidity: 50%."
    );
}

#[test]
fn weatherapi_normalization() {
    // temp_c=15.4, feelslike_c=14.0, humidity=80, "rain"
    let payload = weatherapi_payload(1540, 1400, 8000, "rain");
    let weather = Weather::from_json(payload, Provider::Weatherapi).unwrap();
    assert_eq!(
        weather.into_human(),
        "Today is rain, current temperature: 15, feels like: 14, humidity: 80%."
    );
}

#[test]
fn negative_temperatures_render_with_sign() {
    // temp=250.0 K = -23.15 C -> -23; temp_min=249.95 K = -23.2 C -> -23; temp_max=263.15 K = -10 C
    let payload = openweather_payload(25000, 24995, 26315, 500, "snow");
    let weather = Weather::from_json(payload, Provider::OpenWeather).unwrap();
    assert_eq!(
        weather.into_human(),
        "Today is snow, minimum temperature: -23, maximum temperature: -10, current temperature: -23, humidity: 5%."
    );
}

#[test]
fn openweather_missing_field_fails() {
    let no_humidity = Json::Obj(vec![
        (
            String::from("weather"),
            Json::Arr(vec![Json::Obj(vec![(
                String::from("description"),
                Json::Text(String::from("clear sky")),
            )])]),
        ),
        (
            String::from("main"),
            Json::Obj(vec![
                (String::from("temp"), Json::Num(30000)),
                (String::from("temp_min"), Json::Num(29500)),
                (String::from("temp_max"), Json::Num(30500)),
            ]),
        ),
    ]);
    match Weather::from_json(no_humidity, Provider::OpenWeather) {
        Err(WeatherError::BadResponse) => {}
        other => panic!("expected BadResponse, got {:?}", other),
    }
}

#[test]
fn openweather_empty_weather_array_fails() {
    let payload = Json::Obj(vec![
        (String::from("weather"), Json::Arr(vec![])),
        (
            String::from("main"),
            Json::Obj(vec![
                (String::from("temp"), Json::Num(30000)),
                (String::from("temp_min"), Json::Num(29500)),
                (String::from("temp_max"), Json::Num(30500)),
                (String::from("humidity"), Json::Num(5000)),
            ]),
        ),
    ]);
    match Weather::from_json(payload, Provider::OpenWeather) {
        Err(WeatherError::BadResponse) => {}
        other => panic!("expected BadResponse, got {:?}", other),
    }
}

#[test]
fn openweather_mistyped_field_fails() {
    // description is a number, not a string
    let payload = Json::Obj(vec![
        (
            String::from("weather"),
            Json::Arr(vec![Json::Obj(vec![(
                String::from("description"),
                Json::Num(100),
            )])]),
        ),
        (
            String::from("main"),
            Json::Obj(vec![
                (String::from("temp"), Json::Num(30000)),
                (String::from("temp_min"), Json::Num(29500)),
                (String::from("temp_max"), Json::Num(30500)),
                (String::from("humidity"), Json::Num(5000)),
            ]),
        ),
    ]);
    match Weather::from_json(payload, Provider::OpenWeather) {
        Err(WeatherError::BadResponse) => {}
        other => panic!("expected BadResponse, got {:?}", other),
    }
}

#[test]
fn openweather_fractional_humidity_fails() {
    // humidity=50.5 is not a non-negative whole number
    let payload = openweather_payload(30000, 29500, 30500, 5050, "clear sky");
    match Weather::from_json(payload, Provider::OpenWeather) {
        Err(WeatherError::BadResponse) => {}
        other => panic!("expected BadResponse, got {:?}", other),
    }
}

#[test]
fn weatherapi_missing_current_fails() {
    let payload = Json::Obj(vec![(String::from("location"), Json::Null)]);
    match Weather::from_json(payload, Provider::Weatherapi) {
        Err(WeatherError::BadResponse) => {}
        other => panic!("expected BadResponse, got {:?}", other),
    }
}

#[test]
fn weatherapi_missing_condition_text_fails() {
    let payload = Json::Obj(vec![(
        String::from("current"),
        Json::Obj(vec![
            (String::from("condition"), Json::Obj(vec![])),
            (String::from("temp_c"), Json::Num(1540)),
            (String::from("feelslike_c"), Json::Num(1400)),
            (String::from("humidity"), Json::Num(8000)),
        ]),
    )]);
    match Weather::from_json(payload, Provider::Weatherapi) {
        Err(WeatherError::BadResponse) => {}
        other => panic!("expected BadResponse, got {:?}", other),
    }
}

#[test]
fn weatherapi_negative_humidity_fails() {
    let payload = weatherapi_payload(1540, 1400, -8000, "rain");
    match Weather::from_json(payload, Provider::Weatherapi) {
        Err(WeatherError::BadResponse) => {}
        other => panic!("expected BadResponse, got {:?}", other),
    }
}

#[test]
fn payload_for_wrong_provider_fails() {
    let payload = weatherapi_payload(1540, 1400, 8000, "rain");
    match Weather::from_json(payload, Provider::OpenWeather) {
        Err(WeatherError::BadResponse) => {}
        other => panic!("expected BadResponse, got {:?}", other),
    }
}
