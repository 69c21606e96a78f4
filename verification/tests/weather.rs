use weather::api::forecast_url;
use weather::config::{
    ensure_settings_content, initial_settings_content, resolve_config, set_weather_api_key,
    settings_path, Cli, Config, ConfigError, EffectiveConfig,
};
use weather::models::{
    ConditionText, CurrentConditions, DayConditions, Forecast, ForecastDay, HourConditions,
    Location, Response,
};
use weather::numfmt::{i32_to_string, u32_to_string};
use weather::report::{
    print_coming_days, print_coming_hours, print_conditions, print_divider, print_footer,
    print_location, print_today, print_weather, RenderError,
};
use weather::timeparse::{coming_hours_from, get_coming_hours};

fn hour_conditions(h: usize) -> HourConditions {
    HourConditions {
        time_epoch: 1_704_100_000 + (h as i32) * 3600,
        temp_c: format!("{}", 10.0 + h as f32 * 0.5),
        condition: ConditionText {
            text: format!("Hour {} sky", h),
        },
        wind_kph: "12.2".to_string(),
        chance_of_rain: "40".to_string(),
        feelslike_c: format!("{}", 9.0 + h as f32 * 0.5),
        uv: "1".to_string(),
    }
}

fn forecast_day(date: &str, offset: i32) -> ForecastDay {
    ForecastDay {
        date: date.to_string(),
        date_epoch: 1_704_067_200 + offset * 86400,
        day: DayConditions {
            maxtemp_c: format!("{}", 15.0 + offset as f32),
            mintemp_c: format!("{}", 5.0 + offset as f32),
            condition: ConditionText {
                text: format!("Day {} clouds", offset),
            },
            maxwind_kph: "20.5".to_string(),
            daily_chance_of_rain: "55".to_string(),
            uv: "3".to_string(),
        },
        hour: (0..24).map(hour_conditions).collect(),
    }
}

fn canned_response(total_days: usize, last_updated: &str) -> Response {
    let dates = [
        "2024-01-01",
        "2024-01-02",
        "2024-01-03",
        "2024-01-04",
        "2024-01-05",
        "2024-01-06",
    ];
    Response {
        location: Location {
            name: "Testville".to_string(),
            region: "Test Region".to_string(),
            country: "Testland".to_string(),
            localtime: last_updated.to_string(),
        },
        current: CurrentConditions {
            last_updated_epoch: 1_704_146_400,
            last_updated: last_updated.to_string(),
            temp_c: "8.5".to_string(),
            condition: ConditionText {
                text: "Overcast".to_string(),
            },
            wind_kph: "14.8".to_string(),
            feelslike_c: "6.3".to_string(),
            uv: "2".to_string(),
        },
        forecast: Forecast {
            forecastday: (0..total_days)
                .map(|i| forecast_day(dates[i], i as i32))
                .collect(),
        },
    }
}

fn empty_config() -> Config {
    Config {
        city: None,
        n_forecast_days: None,
        n_forecast_hours: None,
        api_key: None,
    }
}

fn empty_cli() -> Cli {
    Cli {
        city: None,
        days: None,
        hours: None,
    }
}

#[test]
fn cli_value_beats_file_value_per_field() {
    let cli = Cli {
        city: Some("Oslo".to_string()),
        days: Some(7),
        hours: Some(5),
    };
    let file = Config {
        city: Some("Bergen".to_string()),
        n_forecast_days: Some(3),
        n_forecast_hours: Some(9),
        api_key: Some("filekey".to_string()),
    };
    let e: EffectiveConfig = resolve_config(cli, file, None).unwrap();
    assert_eq!(e.city, "Oslo");
    assert_eq!(e.n_days, 7);
    assert_eq!(e.n_hours, 5);
    assert_eq!(e.api_key, "filekey");
}

#[test]
fn file_value_used_when_cli_absent() {
    let file = Config {
        city: Some("Bergen".to_string()),
        n_forecast_days: Some(3),
        n_forecast_hours: Some(9),
        api_key: Some("filekey".to_string()),
    };
    let e = resolve_config(empty_cli(), file, None).unwrap();
    assert_eq!(e.city, "Bergen");
    assert_eq!(e.n_days, 3);
    assert_eq!(e.n_hours, 9);
}

#[test]
fn defaults_used_when_no_source_names_horizons() {
    let file = Config {
        city: Some("Bergen".to_string()),
        n_forecast_days: None,
        n_forecast_hours: None,
        api_key: Some("filekey".to_string()),
    };
    let e = resolve_config(empty_cli(), file, None).unwrap();
    assert_eq!(e.n_days, 1);
    assert_eq!(e.n_hours, 2);
}

#[test]
fn env_api_key_overrides_file_api_key() {
    let file = Config {
        city: Some("Bergen".to_string()),
        n_forecast_days: None,
        n_forecast_hours: None,
        api_key: Some("filekey".to_string()),
    };
    let e = resolve_config(empty_cli(), file, Some("envkey".to_string())).unwrap();
    assert_eq!(e.api_key, "envkey");
}

#[test]
fn set_weather_api_key_only_touches_the_key() {
    let mut config = Config {
        city: Some("Bergen".to_string()),
        n_forecast_days: Some(3),
        n_forecast_hours: None,
        api_key: Some("filekey".to_string()),
    };
    set_weather_api_key(&mut config, Some("envkey".to_string()));
    assert_eq!(config.api_key, Some("envkey".to_string()));
    assert_eq!(config.city, Some("Bergen".to_string()));
    assert_eq!(config.n_forecast_days, Some(3));
    assert_eq!(config.n_forecast_hours, None);
    set_weather_api_key(&mut config, None);
    assert_eq!(config.api_key, Some("envkey".to_string()));
}

#[test]
fn missing_api_key_is_reported_first() {
    let cli = Cli {
        city: Some("Oslo".to_string()),
        days: None,
        hours: None,
    };
    assert_eq!(
        resolve_config(cli, empty_config(), None),
        Err(ConfigError::MissingApiKey)
    );
}

#[test]
fn missing_city_is_reported_when_key_is_present() {
    assert_eq!(
        resolve_config(empty_cli(), empty_config(), Some("envkey".to_string())),
        Err(ConfigError::MissingCity)
    );
}

#[test]
fn settings_round_trip_with_no_overrides_fails_resolution() {
    let written = initial_settings_content();
    assert_eq!(written, "{}");
    let value: serde_json::Value = serde_json::from_str(&written).unwrap();
    let file = Config {
        city: value
            .get("city")
            .and_then(|v| v.as_str())
            .map(|s| s.to_string()),
        n_forecast_days: value
            .get("n_forecast_days")
            .and_then(|v| v.as_i64())
            .map(|n| n as i32),
        n_forecast_hours: value
            .get("n_forecast_hours")
            .and_then(|v| v.as_i64())
            .map(|n| n as i32),
        api_key: value
            .get("api_key")
            .and_then(|v| v.as_str())
            .map(|s| s.to_string()),
    };
    assert_eq!(
        resolve_config(empty_cli(), file, None),
        Err(ConfigError::MissingApiKey)
    );
}

#[test]
fn settings_file_creation_is_idempotent() {
    // First run: no file yet, so the step produces the default content.
    let after_first = ensure_settings_content(None);
    assert_eq!(after_first, "{}");
    // Second run: the file exists; the step leaves it untouched.
    let after_second = ensure_settings_content(Some(after_first.clone()));
    assert_eq!(after_second, after_first);
    // An existing file with other content is never overwritten.
    let kept = ensure_settings_content(Some("{\"city\": \"Oslo\"}".to_string()));
    assert_eq!(kept, "{\"city\": \"Oslo\"}");
}

#[test]
fn settings_path_override_is_taken_verbatim() {
    let r = settings_path(Some("/tmp/alt-settings.json".to_string()), None);
    assert_eq!(r.unwrap(), "/tmp/alt-settings.json");
}

#[test]
fn settings_path_defaults_to_home_config() {
    let r = settings_path(None, Some("/home/someone".to_string()));
    assert_eq!(r.unwrap(), "/home/someone/.config/weather/settings.json");
}

#[test]
fn settings_path_fails_without_home() {
    assert_eq!(
        settings_path(None, None),
        Err(ConfigError::ConfigPathUndetermined)
    );
}

#[test]
fn coming_hours_wrap_past_midnight() {
    let v = coming_hours_from(23, 3);
    assert_eq!(v, vec![0, 1, 2]);
}

#[test]
fn coming_hours_single_hour() {
    let v = coming_hours_from(10, 1);
    assert_eq!(v, vec![11]);
}

#[test]
fn coming_hours_empty_when_not_positive() {
    assert_eq!(coming_hours_from(10, 0), Vec::<usize>::new());
    assert_eq!(coming_hours_from(10, -4), Vec::<usize>::new());
}

#[test]
fn get_coming_hours_parses_the_timestamp() {
    assert_eq!(
        get_coming_hours("2024-01-01 23:59", 3),
        Some(vec![0, 1, 2])
    );
    assert_eq!(get_coming_hours("2024-01-01 10:30", 1), Some(vec![11]));
}

#[test]
fn get_coming_hours_rejects_bad_timestamps() {
    assert_eq!(get_coming_hours("not a time", 2), None);
    assert_eq!(get_coming_hours("2024-13-01 10:00", 2), None);
    assert_eq!(get_coming_hours("2024-01-01 25:00", 2), None);
}

#[test]
fn coming_days_clamps_to_available_days() {
    let response = canned_response(4, "2024-01-01 12:00");
    let lines = print_coming_days(&response, 5);
    // Header, blank line, then exactly three day entries of two lines each.
    assert_eq!(lines.len(), 2 + 3 * 2);
    assert_eq!(lines[0], "Coming 5 days:");
    assert_eq!(lines[1], "");
    assert_eq!(lines[2], "2024-01-02:");
    assert_eq!(lines[4], "2024-01-03:");
    assert_eq!(lines[6], "2024-01-04:");
}

#[test]
fn coming_days_day_detail_line() {
    let response = canned_response(2, "2024-01-01 12:00");
    let lines = print_coming_days(&response, 1);
    assert_eq!(lines[0], "Coming 1 day:");
    assert_eq!(
        lines[3],
        "Min/max temperature: 6/16󰔄  (Day 1 clouds)| Max wind speed: 20.5 km/h | Chance of rain: 55% | UV index: 3"
    );
}

#[test]
fn hourly_section_wraps_into_today_table() {
    let response = canned_response(2, "2024-01-01 22:00");
    let lines = print_coming_hours(&response, 2).unwrap();
    assert_eq!(lines[0], "Coming 2 hours:");
    assert_eq!(lines[1], "");
    assert_eq!(lines[2], "23:00:");
    assert_eq!(lines[3], "Feels like 20.5󰔄 (Hour 23 sky)");
    assert_eq!(lines[5], "0:00:");
    assert_eq!(lines[6], "Feels like 9󰔄 (Hour 0 sky)");
}

#[test]
fn hourly_header_is_singular_for_one_hour() {
    let response = canned_response(1, "2024-01-01 05:00");
    let lines = print_coming_hours(&response, 1).unwrap();
    assert_eq!(lines[0], "Coming 1 hour:");
    assert_eq!(lines[2], "6:00:");
}

#[test]
fn full_report_for_testville() {
    let response = canned_response(4, "2024-01-01 22:00");
    let lines = print_weather(&response, 3, 2).unwrap();
    assert_eq!(lines[0], "Testville, Test Region, Testland (2024-01-01 22:00)");
    assert_eq!(lines[1], "");
    assert_eq!(lines[2], "Feels like 6.3󰔄 (Overcast)");
    assert_eq!(
        lines[3],
        "Actual temperature: 8.5󰔄 | UV: 2 | Wind speed: 14.8 km/h"
    );
    assert_eq!(
        lines[4],
        "Min/max temperature: 5/15󰔄 | Max wind speed: 20.5 km/h"
    );
    assert_eq!(lines[5], "-".repeat(59));
    assert_eq!(lines[6], "Coming 2 hours:");
    assert_eq!(lines[7], "");
    // Hour 23 first, then hour 0 of the same day's table, in that order.
    assert_eq!(lines[8], "23:00:");
    assert_eq!(lines[11], "0:00:");
    assert_eq!(lines[14], "-".repeat(59));
    assert_eq!(lines[15], "Coming 3 days:");
    let last = lines.len() - 1;
    assert_eq!(lines[last - 1], "-".repeat(59));
    assert_eq!(lines[last], "Last updated: 2024-01-01 22:00 (local time)");
}

#[test]
fn report_fails_on_empty_forecast() {
    let mut response = canned_response(1, "2024-01-01 22:00");
    response.forecast.forecastday.clear();
    assert_eq!(
        print_weather(&response, 1, 2),
        Err(RenderError::NoForecastDays)
    );
}

#[test]
fn report_fails_on_short_hour_table() {
    let mut response = canned_response(2, "2024-01-01 22:00");
    response.forecast.forecastday[1].hour.pop();
    assert_eq!(
        print_weather(&response, 1, 2),
        Err(RenderError::MalformedHourTable)
    );
}

#[test]
fn report_fails_on_unparseable_timestamp() {
    let response = canned_response(1, "yesterday evening");
    assert_eq!(
        print_weather(&response, 1, 2),
        Err(RenderError::UnparseableTimestamp)
    );
}

#[test]
fn location_and_footer_lines() {
    let response = canned_response(1, "2024-01-01 22:00");
    let loc = print_location(&response);
    assert_eq!(loc, vec![
        "Testville, Test Region, Testland (2024-01-01 22:00)".to_string(),
        "".to_string(),
    ]);
    let footer = print_footer(&response);
    assert_eq!(footer, vec![
        "Last updated: 2024-01-01 22:00 (local time)".to_string(),
    ]);
}

#[test]
fn today_summary_line() {
    let response = canned_response(1, "2024-01-01 22:00");
    let today = print_today(&response);
    assert_eq!(today, vec![
        "Min/max temperature: 5/15󰔄 | Max wind speed: 20.5 km/h".to_string(),
    ]);
}

#[test]
fn conditions_block_shared_by_current_and_hourly() {
    let response = canned_response(1, "2024-01-01 22:00");
    let current = print_conditions(&response.current);
    assert_eq!(current[0], "Feels like 6.3󰔄 (Overcast)");
    assert_eq!(
        current[1],
        "Actual temperature: 8.5󰔄 | UV: 2 | Wind speed: 14.8 km/h"
    );
    let hourly = print_conditions(&response.forecast.forecastday[0].hour[3]);
    assert_eq!(hourly[0], "Feels like 10.5󰔄 (Hour 3 sky)");
    assert_eq!(
        hourly[1],
        "Actual temperature: 11.5󰔄 | UV: 1 | Wind speed: 12.2 km/h"
    );
}

#[test]
fn divider_is_59_separator_characters() {
    let div = print_divider();
    assert_eq!(div.len(), 1);
    assert_eq!(div[0], "-".repeat(59));
}

#[test]
fn forecast_url_requests_one_extra_day() {
    assert_eq!(
        forecast_url("KEY", "Paris", 1),
        "https://api.weatherapi.com/v1/forecast.json?key=KEY&q=Paris&days=2&aqi=no&alerts=no"
    );
    assert_eq!(
        forecast_url("abc", "Testville", 3),
        "https://api.weatherapi.com/v1/forecast.json?key=abc&q=Testville&days=4&aqi=no&alerts=no"
    );
}

#[test]
fn decimal_rendering() {
    assert_eq!(u32_to_string(0), "0");
    assert_eq!(u32_to_string(7), "7");
    assert_eq!(u32_to_string(230), "230");
    assert_eq!(i32_to_string(-12), "-12");
    assert_eq!(i32_to_string(2147483647), "2147483647");
    assert_eq!(i32_to_string(-2147483648), "-2147483648");
}
