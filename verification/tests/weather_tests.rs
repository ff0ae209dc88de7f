use nimbus::config::TrayTemp;
use nimbus::weather::{
    compass_point, forecast_days, weather_from_response, wmo_description, wmo_icon, CurrentWeather, Date,
    RawCurrentWeather, RawDailyWeather, RawWeatherResponse, WeatherError,
};

fn daily(times: &[&str], values: usize) -> RawDailyWeather<f32> {
    let col = |base: f32| (0..values).map(|i| base + i as f32).collect::<Vec<f32>>();
    RawDailyWeather {
        time: times.iter().map(|s| s.to_string()).collect(),
        temperature_2m_max: col(20.0),
        temperature_2m_min: col(10.0),
        apparent_temperature_max: col(19.0),
        apparent_temperature_min: col(9.0),
        precipitation_sum: col(0.5),
        wind_speed_10m_max: col(12.0),
        wind_direction_10m_dominant: col(180.0),
        weather_code: (0..values).map(|i| i as u8).collect(),
    }
}

fn current() -> RawCurrentWeather<f32> {
    RawCurrentWeather {
        temperature_2m: -3.5,
        apparent_temperature: -7.25,
        precipitation: 0.1,
        wind_speed_10m: 14.0,
        wind_direction_10m: 270.0,
        weather_code: 71,
    }
}

const WEEK: [&str; 8] = [
    "2025-05-01", "2025-05-02", "2025-05-03", "2025-05-04", "2025-05-05", "2025-05-06", "2025-05-07",
    "2025-05-08",
];

#[test]
fn descriptions() {
    assert_eq!(wmo_description(0), "Clear sky");
    assert_eq!(wmo_description(1), "Mainly clear");
    assert_eq!(wmo_description(2), "Partly cloudy");
    assert_eq!(wmo_description(3), "Overcast");
    assert_eq!(wmo_description(48), "Fog");
    assert_eq!(wmo_description(53), "Drizzle");
    assert_eq!(wmo_description(65), "Rain");
    assert_eq!(wmo_description(71), "Snow");
    assert_eq!(wmo_description(77), "Snow grains");
    assert_eq!(wmo_description(81), "Rain showers");
    assert_eq!(wmo_description(86), "Snow showers");
    assert_eq!(wmo_description(95), "Thunderstorm");
    assert_eq!(wmo_description(99), "Thunderstorm w/ hail");
    assert_eq!(wmo_description(52), "Unknown");
    assert_eq!(wmo_description(255), "Unknown");
}

#[test]
fn icons() {
    assert_eq!(wmo_icon(0), "O");
    assert_eq!(wmo_icon(1), "O~");
    assert_eq!(wmo_icon(2), "O~");
    assert_eq!(wmo_icon(3), "~~");
    assert_eq!(wmo_icon(45), "==");
    assert_eq!(wmo_icon(52), "~/");
    assert_eq!(wmo_icon(82), "~/");
    assert_eq!(wmo_icon(64), "//");
    assert_eq!(wmo_icon(76), "**");
    assert_eq!(wmo_icon(86), "**");
    assert_eq!(wmo_icon(97), "!!");
    assert_eq!(wmo_icon(100), "?");
}

#[test]
fn icons_are_ascii() {
    for code in 0..=255u8 {
        let icon = wmo_icon(code);
        assert!(!icon.is_empty() && icon.is_ascii());
    }
}

#[test]
fn compass_points() {
    let expected = ["N", "NE", "E", "SE", "S", "SW", "W", "NW"];
    for (i, e) in expected.iter().enumerate() {
        assert_eq!(compass_point(i), *e);
        assert_eq!(compass_point(i + 8), *e);
    }
    assert_eq!(compass_point(usize::MAX), "NW");
}

#[test]
fn forecast_keeps_at_most_a_week() {
    let d = daily(&WEEK, 8);
    let days = forecast_days(&d).unwrap();
    assert_eq!(days.len(), 7);
    assert_eq!(days[0].date, Date { year: 2025, month: 5, day: 1 });
    assert_eq!(days[6].date, Date { year: 2025, month: 5, day: 7 });
    assert_eq!(days[3].temp_max, 23.0);
    assert_eq!(days[3].temp_min, 13.0);
    assert_eq!(days[3].feels_max, 22.0);
    assert_eq!(days[3].feels_min, 12.0);
    assert_eq!(days[3].precipitation, 3.5);
    assert_eq!(days[3].wind_speed, 15.0);
    assert_eq!(days[3].wind_direction, 183.0);
    assert_eq!(days[3].weather_code, 3);
    assert_eq!(days[3].description(), "Overcast");
    assert_eq!(days[3].icon(), "~~");
}

#[test]
fn short_forecast_keeps_every_day() {
    let d = daily(&WEEK[..3], 3);
    let days = forecast_days(&d).unwrap();
    assert_eq!(days.len(), 3);
    assert_eq!(days[2].date, Date { year: 2025, month: 5, day: 3 });
}

#[test]
fn empty_forecast() {
    let d = daily(&[], 0);
    assert_eq!(forecast_days(&d).unwrap().len(), 0);
}

#[test]
fn first_bad_date_is_reported() {
    let d = daily(&["2025-05-01", "yesterday", "2025-13-01", "2025-05-04"], 4);
    match forecast_days(&d) {
        Err(WeatherError::BadDate(t)) => assert_eq!(t, "yesterday"),
        Ok(_) => panic!("a bad date was accepted"),
    }
}

#[test]
fn impossible_date_is_bad() {
    let d = daily(&["2025-02-30"], 1);
    match forecast_days(&d) {
        Err(WeatherError::BadDate(t)) => assert_eq!(t, "2025-02-30"),
        Ok(_) => panic!("an impossible date was accepted"),
    }
}

#[test]
fn response_becomes_weather_data() {
    let raw = RawWeatherResponse { current: current(), daily: daily(&WEEK[..2], 2) };
    let w = weather_from_response(&raw).unwrap().unwrap();
    assert_eq!(
        w.current,
        CurrentWeather {
            temperature: -3.5,
            feels_like: -7.25,
            precipitation: 0.1,
            wind_speed: 14.0,
            wind_direction: 270.0,
            weather_code: 71,
        }
    );
    assert_eq!(w.forecast.len(), 2);
    assert_eq!(w.current.description(), "Snow");
    assert_eq!(w.current.icon(), "**");
}

#[test]
fn tray_shows_chosen_temperature() {
    let raw = RawWeatherResponse { current: current(), daily: daily(&[], 0) };
    let w = weather_from_response(&raw).unwrap().unwrap();
    assert_eq!(w.current.tray_temperature(TrayTemp::Actual), -3.5);
    assert_eq!(w.current.tray_temperature(TrayTemp::FeelsLike), -7.25);
}

#[test]
fn missing_values_are_refused() {
    let raw = RawWeatherResponse { current: current(), daily: daily(&WEEK, 3) };
    assert!(weather_from_response(&raw).is_none());
}

#[test]
fn bad_date_before_missing_values_is_reported() {
    let raw = RawWeatherResponse { current: current(), daily: daily(&["2025-05-01", "x", "2025-05-03", "2025-05-04"], 1) };
    match weather_from_response(&raw) {
        Some(Err(WeatherError::BadDate(t))) => assert_eq!(t, "x"),
        _ => panic!("expected the bad date"),
    }
}

#[test]
fn bad_date_at_the_first_missing_day_is_reported() {
    let raw = RawWeatherResponse { current: current(), daily: daily(&["2025-05-01", "x", "2025-05-03"], 1) };
    assert!(matches!(weather_from_response(&raw), Some(Err(WeatherError::BadDate(_)))));
}

#[test]
fn missing_day_values_after_good_dates_are_refused() {
    let raw = RawWeatherResponse { current: current(), daily: daily(&["2025-05-01", "2025-05-02", "x"], 1) };
    assert!(weather_from_response(&raw).is_none());
}
