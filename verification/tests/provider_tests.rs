use weatherapp::provider::Provider;
use weatherapp::provider::ProviderError;

#[test]
fn parse_openweather() {
    assert_eq!(Provider::try_from("openweather"), Ok(Provider::OpenWeather));
}

#[test]
fn parse_weatherapi() {
    assert_eq!(Provider::try_from("weatherapi"), Ok(Provider::Weatherapi));
}

#[test]
fn parse_unknown_provider_fails() {
    assert_eq!(Provider::try_from("noaa"), Err(ProviderError::UnknownProvider));
    assert_eq!(Provider::try_from(""), Err(ProviderError::UnknownProvider));
    assert_eq!(Provider::try_from("OpenWeather"), Err(ProviderError::UnknownProvider));
    assert_eq!(Provider::try_from("openweather "), Err(ProviderError::UnknownProvider));
    assert_eq!(Provider::try_from("weatherapi2"), Err(ProviderError::UnknownProvider));
}

#[test]
fn parse_then_render_round_trips() {
    for name in ["openweather", "weatherapi"] {
        let p = Provider::try_from(name).unwrap();
        assert_eq!(p.name(), name);
    }
}

#[test]
fn render_then_parse_round_trips() {
    for p in [Provider::OpenWeather, Provider::Weatherapi] {
        assert_eq!(Provider::try_from(p.name().as_str()), Ok(p));
    }
}

#[test]
fn default_provider_is_openweather() {
    assert_eq!(Provider::default(), Provider::OpenWeather);
}

#[test]
fn openweather_url() {
    let p = Provider::OpenWeather;
    assert_eq!(
        p.weather_url("Paris", "k1"),
        "https://api.openweathermap.org/data/2.5/weather?q=Paris&appid=k1"
    );
}

#[test]
fn weatherapi_url() {
    let p = Provider::Weatherapi;
    assert_eq!(
        p.weather_url("Paris", "k2"),
        "https://api.weatherapi.com/v1/current.json?key=k2&q=Paris&aqi=no"
    );
}
