use vstd::prelude::*;
use vstd::string::StringExecFns;

use crate::utils::str_eq;

verus! {

/// Errors related to provider operations.
#[derive(Clone, Copy, Debug, PartialEq, Eq, Structural)]
pub enum ProviderError {
    /// The given name is not one of the known provider names.
    UnknownProvider,
    /// The outbound request failed: transport error, non-2xx status,
    /// or a body that is not JSON.
    RequestFailed,
}

/// The weather API provider to use.
#[derive(Clone, Copy, Debug, PartialEq, Eq, Structural)]
pub enum Provider {
    OpenWeather,
    Weatherapi,
}

/// The canonical lowercase name of a provider, used both for config
/// serialization and for display.
pub open spec fn spec_provider_name(p: Provider) -> Seq<char> {
    match p {
        Provider::OpenWeather => "openweather"@,
        Provider::Weatherapi => "weatherapi"@,
    }
}

/// Exact, case-sensitive parsing of a provider name: the two known
/// lowercase names map to their variants, everything else is an error.
pub open spec fn spec_parse_provider(s: Seq<char>) -> Result<Provider, ProviderError> {
    if s == "openweather"@ {
        Ok(Provider::OpenWeather)
    } else if s == "weatherapi"@ {
        Ok(Provider::Weatherapi)
    } else {
        Err(ProviderError::UnknownProvider)
    }
}

/// The provider-specific current-weather request URL, with the address
/// and the API key embedded as query parameters.
pub open spec fn spec_weather_url(p: Provider, address: Seq<char>, api_key: Seq<char>) -> Seq<char> {
    match p {
        Provider::OpenWeather => "https://api.openweathermap.org/data/2.5/weather?q="@ + address
            + "&appid="@ + api_key,
        Provider::Weatherapi => "https://api.weatherapi.com/v1/current.json?key="@ + api_key + "&q="@
            + address + "&aqi=no"@,
    }
}

impl Provider {
    /// Parse a provider from its canonical lowercase name.
    /// Succeeds exactly on `"openweather"` and `"weatherapi"`; any other
    /// string yields `ProviderError::UnknownProvider`.
    pub fn try_from(value: &str) -> (r: Result<Provider, ProviderError>)
        ensures
            r == spec_parse_provider(value@),
    {
        if str_eq(value, "openweather") {
            Ok(Provider::OpenWeather)
        } else if str_eq(value, "weatherapi") {
            Ok(Provider::Weatherapi)
        } else {
            Err(ProviderError::UnknownProvider)
        }
    }

    /// The canonical lowercase name of this provider.
    pub fn name(&self) -> (r: String)
        ensures
            r@ == spec_provider_name(*self),
    {
        match self {
            Provider::OpenWeather => "openweather".to_owned(),
            Provider::Weatherapi => "weatherapi".to_owned(),
        }
    }

    /// Build the request URL for this provider's current-weather endpoint.
    pub fn weather_url(&self, address: &str, api_key: &str) -> (r: String)
        ensures
            r@ == spec_weather_url(*self, address@, api_key@),
    {
        match self {
            Provider::OpenWeather => {
                let mut s = "https://api.openweathermap.org/data/2.5/weather?q=".to_owned();
                s.append(address);
                s.append("&appid=");
                s.append(api_key);
                s
            },
            Provider::Weatherapi => {
                let mut s = "https://api.weatherapi.com/v1/current.json?key=".to_owned();
                s.append(api_key);
                s.append("&q=");
                s.append(address);
                s.append("&aqi=no");
                s
            },
        }
    }
}

impl Default for Provider {
    /// The default provider, used when no choice has been configured yet.
    fn default() -> (r: Self)
        ensures
            r == Provider::OpenWeather,
    {
        Provider::OpenWeather
    }
}

/// Parsing a valid provider name and rendering the result yields the
/// same lowercase string back.
pub proof fn lemma_provider_round_trip(s: Seq<char>)
    requires
        s == "openweather"@ || s == "weatherapi"@,
    ensures
        spec_parse_provider(s) is Ok,
        spec_provider_name(spec_parse_provider(s)->Ok_0) == s,
{
    reveal_strlit("openweather");
    reveal_strlit("weatherapi");
    assert("openweather"@.len() == 11);
    assert("weatherapi"@.len() == 10);
}

/// Rendering a provider's name and parsing it back yields the same
/// provider.
pub proof fn lemma_name_then_parse(p: Provider)
    ensures
        spec_parse_provider(spec_provider_name(p)) == Ok::<Provider, ProviderError>(p),
{
    reveal_strlit("openweather");
    reveal_strlit("weatherapi");
    assert("openweather"@.len() == 11);
    assert("weatherapi"@.len() == 10);
}

} // verus!
