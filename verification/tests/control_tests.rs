use nimbus::config::RefreshInterval;
use nimbus::control::{AppEffect, AppInput, AppState};

#[test]
fn starts_idle() {
    let s = AppState::new(RefreshInterval::Min30);
    assert!(!s.fetching && !s.show_forecast && !s.show_settings);
    assert_eq!(s.refresh_interval, RefreshInterval::Min30);
}

#[test]
fn first_frame_after_a_long_time_fetches() {
    let mut s = AppState::new(RefreshInterval::Min30);
    assert_eq!(s.step(AppInput::Tick(Some(9999))), AppEffect::StartFetch);
    assert!(s.fetching);
}

#[test]
fn first_frame_of_a_fresh_start_fetches() {
    let mut s = AppState::new(RefreshInterval::Min60);
    assert_eq!(s.step(AppInput::Tick(None)), AppEffect::StartFetch);
    assert_eq!(s.step(AppInput::Tick(None)), AppEffect::Nothing);
}

#[test]
fn tick_before_period_does_nothing() {
    let mut s = AppState::new(RefreshInterval::Min15);
    assert_eq!(s.step(AppInput::Tick(Some(899))), AppEffect::Nothing);
    assert!(!s.fetching);
    assert_eq!(s.step(AppInput::Tick(Some(900))), AppEffect::StartFetch);
}

#[test]
fn hour_interval_waits_an_hour() {
    let mut s = AppState::new(RefreshInterval::Min60);
    assert_eq!(s.step(AppInput::Tick(Some(3599))), AppEffect::Nothing);
    assert_eq!(s.step(AppInput::Tick(Some(3600))), AppEffect::StartFetch);
}

#[test]
fn no_second_request_while_fetching() {
    let mut s = AppState::new(RefreshInterval::Min30);
    assert_eq!(s.step(AppInput::RefreshChosen), AppEffect::StartFetch);
    assert_eq!(s.step(AppInput::RefreshChosen), AppEffect::Nothing);
    assert_eq!(s.step(AppInput::Tick(Some(10_000))), AppEffect::Nothing);
    assert_eq!(s.step(AppInput::WeatherReady), AppEffect::ShowWeather);
    assert!(!s.fetching);
    assert_eq!(s.step(AppInput::RefreshChosen), AppEffect::StartFetch);
}

#[test]
fn failure_clears_fetching() {
    let mut s = AppState::new(RefreshInterval::Min30);
    s.step(AppInput::RefreshChosen);
    assert_eq!(s.step(AppInput::WeatherFailed), AppEffect::ReportError);
    assert!(!s.fetching);
}

#[test]
fn saved_config_always_fetches_and_closes_settings() {
    let mut s = AppState::new(RefreshInterval::Min30);
    s.step(AppInput::SettingsChosen);
    s.step(AppInput::RefreshChosen);
    assert!(s.show_settings && s.fetching);
    assert_eq!(s.step(AppInput::ConfigSaved(RefreshInterval::Min15)), AppEffect::ApplyConfigAndFetch);
    assert!(!s.show_settings && s.fetching);
    assert_eq!(s.refresh_interval, RefreshInterval::Min15);
}

#[test]
fn windows_open_and_close() {
    let mut s = AppState::new(RefreshInterval::Min30);
    assert_eq!(s.step(AppInput::TrayClicked), AppEffect::Nothing);
    assert!(s.show_forecast);
    assert_eq!(s.step(AppInput::SettingsChosen), AppEffect::Nothing);
    assert!(s.show_settings);
    s.step(AppInput::ForecastClosed);
    s.step(AppInput::SettingsClosed);
    assert!(!s.show_forecast && !s.show_settings);
}

#[test]
fn quit_closes() {
    let mut s = AppState::new(RefreshInterval::Min30);
    let before = s;
    assert_eq!(s.step(AppInput::QuitChosen), AppEffect::Close);
    assert_eq!(s, before);
}

#[test]
fn requests_do_not_overlap_in_a_run() {
    let mut s = AppState::new(RefreshInterval::Min15);
    let inputs = [
        AppInput::Tick(Some(9999)),
        AppInput::RefreshChosen,
        AppInput::Tick(Some(9999)),
        AppInput::TrayClicked,
        AppInput::WeatherReady,
        AppInput::Tick(Some(3)),
        AppInput::RefreshChosen,
        AppInput::RefreshChosen,
        AppInput::WeatherFailed,
        AppInput::Tick(Some(900)),
    ];
    let effects: Vec<AppEffect> = inputs.iter().map(|i| s.step(*i)).collect();
    let starts: Vec<usize> = effects
        .iter()
        .enumerate()
        .filter(|(_, e)| **e == AppEffect::StartFetch)
        .map(|(i, _)| i)
        .collect();
    assert_eq!(starts, vec![0, 6, 9]);
}
