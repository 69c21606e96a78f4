//! Configuration resolution: the persisted settings file, the environment,
//! and the command line are merged into one effective configuration with a
//! fixed precedence per field (command line over file over default; for the
//! API key, environment over file).  The settings-file bootstrap step — write
//! an empty JSON object on first run, touch nothing afterwards — is modelled
//! here too, so that its idempotence is a theorem.

use vstd::prelude::*;
use vstd::string::StringExecFns;

verus! {

/// How many future days the report covers when nothing picks a count.
pub const DEFAULT_N_DAYS: i32 = 1;

/// How many coming hours the report covers when nothing picks a count.
pub const DEFAULT_N_HOURS: i32 = 2;

/// What the settings file may hold; every field is optional.
pub struct Config {
    pub city: Option<String>,
    pub n_forecast_days: Option<i32>,
    pub n_forecast_hours: Option<i32>,
    pub api_key: Option<String>,
}

/// What the command line may supply: a positional city and the two horizons.
/// The API key never comes from the command line.
pub struct Cli {
    pub city: Option<String>,
    pub days: Option<i32>,
    pub hours: Option<i32>,
}

/// The merged configuration for one run: city and API key are mandatory,
/// the horizons always have a value.
#[derive(Debug, PartialEq, Eq)]
pub struct EffectiveConfig {
    pub city: String,
    pub api_key: String,
    pub n_days: i32,
    pub n_hours: i32,
}

/// Why configuration resolution can fail.
#[derive(Clone, Copy, Debug, PartialEq, Eq, Structural)]
pub enum ConfigError {
    /// No override path and no home directory to place the settings file in.
    ConfigPathUndetermined,
    /// The settings file exists but is not well-formed JSON.
    ConfigFileUnreadable,
    /// No source supplied a city.
    MissingCity,
    /// No source supplied an API key.
    MissingApiKey,
}

/// The first value present, primary before fallback.
pub open spec fn spec_pick<T>(primary: Option<T>, fallback: Option<T>) -> Option<T> {
    if primary is Some {
        primary
    } else {
        fallback
    }
}

/// Per-field precedence: the command-line value when present, else the file
/// value, else the default.
pub open spec fn spec_or_default<T>(cli: Option<T>, file: Option<T>, default: T) -> T {
    match cli {
        Some(v) => v,
        None => match file {
            Some(v) => v,
            None => default,
        },
    }
}

/// Law: each field resolves independently — the command-line value wins when
/// present, else the file value, else the default.
pub proof fn lemma_field_precedence<T>(cli: Option<T>, file: Option<T>, default: T)
    ensures
        cli matches Some(c) ==> spec_or_default(cli, file, default) == c,
        cli is None ==> (file matches Some(f) ==> spec_or_default(cli, file, default) == f),
        cli is None && file is None ==> spec_or_default(cli, file, default) == default,
{
}

/// The first value present, primary before fallback.
pub fn pick<T>(primary: Option<T>, fallback: Option<T>) -> (r: Option<T>)
    ensures
        r == spec_pick(primary, fallback),
{
    match primary {
        Some(v) => Some(v),
        None => fallback,
    }
}

/// Overlays the environment-supplied API key onto a loaded configuration:
/// the environment wins over the file, and every other field is untouched.
pub fn set_weather_api_key(config: &mut Config, env_api_key: Option<String>)
    ensures
        final(config).api_key == spec_pick(env_api_key, old(config).api_key),
        final(config).city == old(config).city,
        final(config).n_forecast_days == old(config).n_forecast_days,
        final(config).n_forecast_hours == old(config).n_forecast_hours,
{
    if let Some(key) = env_api_key {
        config.api_key = Some(key);
    }
}

/// The city the run will use, if any source names one.
pub open spec fn resolved_city(cli: Cli, file: Config) -> Option<String> {
    spec_pick(cli.city, file.city)
}

/// The API key the run will use, if any source supplies one; the environment
/// wins over the file.
pub open spec fn resolved_api_key(file: Config, env_api_key: Option<String>) -> Option<String> {
    spec_pick(env_api_key, file.api_key)
}

/// Merges the three configuration sources into the effective configuration.
///
/// The API key is checked first, as the run cannot proceed without it; then
/// the city; the two horizons always resolve, falling back to their defaults.
pub fn resolve_config(cli: Cli, file: Config, env_api_key: Option<String>) -> (r: Result<
    EffectiveConfig,
    ConfigError,
>)
    ensures
        resolved_api_key(file, env_api_key) is None ==> r == Err::<
            EffectiveConfig,
            ConfigError,
        >(ConfigError::MissingApiKey),
        resolved_api_key(file, env_api_key) is Some && resolved_city(cli, file) is None ==> r
            == Err::<EffectiveConfig, ConfigError>(ConfigError::MissingCity),
        resolved_api_key(file, env_api_key) is Some && resolved_city(cli, file) is Some ==> (
        r matches Ok(e) && e.api_key == resolved_api_key(file, env_api_key).unwrap() && e.city
            == resolved_city(cli, file).unwrap() && e.n_days == spec_or_default(
            cli.days,
            file.n_forecast_days,
            DEFAULT_N_DAYS,
        ) && e.n_hours == spec_or_default(cli.hours, file.n_forecast_hours, DEFAULT_N_HOURS)),
{
    let mut file = file;
    set_weather_api_key(&mut file, env_api_key);
    let api_key = match file.api_key {
        Some(k) => k,
        None => {
            return Err(ConfigError::MissingApiKey);
        },
    };
    let city = match pick(cli.city, file.city) {
        Some(c) => c,
        None => {
            return Err(ConfigError::MissingCity);
        },
    };
    let n_days = match pick(cli.days, file.n_forecast_days) {
        Some(d) => d,
        None => DEFAULT_N_DAYS,
    };
    let n_hours = match pick(cli.hours, file.n_forecast_hours) {
        Some(h) => h,
        None => DEFAULT_N_HOURS,
    };
    Ok(EffectiveConfig { city, api_key, n_days, n_hours })
}

/// The settings file's place under the home directory.
pub open spec fn settings_rel_path() -> Seq<char> {
    "/.config/weather/settings.json"@
}

/// Resolves where the settings file lives: an override path is taken
/// verbatim; otherwise it sits under the home directory; with neither,
/// resolution fails.
pub fn settings_path(override_path: Option<String>, home: Option<String>) -> (r: Result<
    String,
    ConfigError,
>)
    ensures
        override_path matches Some(p) ==> (r matches Ok(q) && q@ == p@),
        override_path is None ==> (home matches Some(h) ==> (r matches Ok(q) && q@ == h@
            + settings_rel_path())),
        override_path is None && home is None ==> r == Err::<String, ConfigError>(
            ConfigError::ConfigPathUndetermined,
        ),
{
    match override_path {
        Some(p) => Ok(p),
        None => match home {
            Some(mut h) => {
                h.append("/.config/weather/settings.json");
                Ok(h)
            },
            None => Err(ConfigError::ConfigPathUndetermined),
        },
    }
}

/// What a fresh settings file holds: an empty JSON object.
pub open spec fn default_settings_text() -> Seq<char> {
    "{}"@
}

/// The settings-file content after the ensure-exists step: an absent file is
/// created holding the empty JSON object; an existing file is left alone.
pub open spec fn settings_after_init(content: Option<Seq<char>>) -> Option<Seq<char>> {
    match content {
        Some(c) => Some(c),
        None => Some(default_settings_text()),
    }
}

/// Law: the ensure-exists step is idempotent — running it twice leaves the
/// same content as running it once — and it never rewrites an existing file.
pub proof fn lemma_settings_init_idempotent(content: Option<Seq<char>>)
    ensures
        settings_after_init(settings_after_init(content)) == settings_after_init(content),
        content is Some ==> settings_after_init(content) == content,
        content is None ==> settings_after_init(content) == Some(default_settings_text()),
{
}

/// The content a first run writes to the settings file.
pub fn initial_settings_content() -> (s: String)
    ensures
        s@ == default_settings_text(),
{
    String::from_str("{}")
}

/// The ensure-exists step on the settings file's content: what the file
/// holds afterwards, given what it held before (nothing when absent).  The
/// caller writes the result back only when the file was absent.
pub fn ensure_settings_content(existing: Option<String>) -> (r: String)
    ensures
        Some(r@) == settings_after_init(existing.deep_view()),
{
    match existing {
        Some(c) => c,
        None => initial_settings_content(),
    }
}

} // verus!
