//! Building the provider request: the forecast URL and the provider's day
//! parameter.  Issuing the request is I/O and stays outside the library.

use vstd::prelude::*;
use vstd::string::StringExecFns;
use crate::numfmt::int_digits;

verus! {

/// The day count handed to the provider: its `days` parameter counts today,
/// so one more day is requested than the future horizon, which keeps today
/// in the response alongside the requested days.
pub open spec fn provider_day_count(n_days: int) -> int {
    n_days + 1
}

/// The provider's day parameter for a future horizon of `n_days`.
pub fn request_days(n_days: i32) -> (r: i32)
    requires
        n_days < i32::MAX,
    ensures
        r as int == provider_day_count(n_days as int),
{
    n_days + 1
}

/// The full forecast URL for one run.
pub open spec fn forecast_url_spec(api_key: Seq<char>, city: Seq<char>, n_days: int) -> Seq<char> {
    "https://api.weatherapi.com/v1/forecast.json?key="@ + api_key + "&q="@ + city + "&days="@
        + int_digits(provider_day_count(n_days)) + "&aqi=no&alerts=no"@
}

/// Renders the forecast URL for the given key, city and future-day horizon.
pub fn forecast_url(api_key: &str, city: &str, n_days: i32) -> (r: String)
    requires
        n_days < i32::MAX,
    ensures
        r@ == forecast_url_spec(api_key@, city@, n_days as int),
{
    let mut s = String::from_str("https://api.weatherapi.com/v1/forecast.json?key=");
    s.append(api_key);
    s.append("&q=");
    s.append(city);
    s.append("&days=");
    s.append(crate::numfmt::i32_to_string(request_days(n_days)).as_str());
    s.append("&aqi=no&alerts=no");
    s
}

} // verus!
