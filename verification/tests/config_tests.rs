use nimbus::config::{Config, RefreshInterval, TempUnit, TrayTemp};
use nimbus::geo::{GeoResult, IpLocation};

#[test]
fn defaults_match_a_first_run() {
    assert_eq!(TrayTemp::default(), TrayTemp::Actual);
    assert_eq!(TempUnit::default(), TempUnit::Celsius);
    assert_eq!(RefreshInterval::default(), RefreshInterval::Min30);
}

#[test]
fn interval_minutes() {
    assert_eq!(RefreshInterval::Min15.minutes(), 15);
    assert_eq!(RefreshInterval::Min30.minutes(), 30);
    assert_eq!(RefreshInterval::Min60.minutes(), 60);
}

#[test]
fn interval_labels() {
    assert_eq!(RefreshInterval::Min15.label(), "15 хв");
    assert_eq!(RefreshInterval::Min30.label(), "30 хв");
    assert_eq!(RefreshInterval::Min60.label(), "60 хв");
}

#[test]
fn all_intervals_in_order() {
    assert_eq!(
        RefreshInterval::all(),
        &[RefreshInterval::Min15, RefreshInterval::Min30, RefreshInterval::Min60]
    );
}

#[test]
fn every_interval_is_offered_once() {
    for iv in [RefreshInterval::Min15, RefreshInterval::Min30, RefreshInterval::Min60] {
        assert_eq!(RefreshInterval::all().iter().filter(|x| **x == iv).count(), 1);
        assert!(iv.label().starts_with(&iv.minutes().to_string()));
    }
}

#[test]
fn first_run_config_takes_location_and_defaults() {
    let loc = IpLocation { city: "Kyiv".to_string(), lat: 50.45f64, lon: 30.52f64, status: "success".to_string() };
    let cfg = Config::for_location(loc);
    assert_eq!(cfg.city_name, "Kyiv");
    assert_eq!(cfg.latitude, 50.45);
    assert_eq!(cfg.longitude, 30.52);
    assert_eq!(cfg.tray_temp, TrayTemp::Actual);
    assert_eq!(cfg.refresh_interval, RefreshInterval::Min30);
    assert_eq!(cfg.temp_unit, TempUnit::Celsius);
}

#[test]
fn new_city_keeps_other_choices() {
    let cfg = Config {
        city_name: "Kyiv".to_string(),
        latitude: 50.45f64,
        longitude: 30.52f64,
        tray_temp: TrayTemp::FeelsLike,
        refresh_interval: RefreshInterval::Min60,
        temp_unit: TempUnit::Fahrenheit,
    };
    let city = GeoResult {
        name: "Lviv".to_string(),
        latitude: 49.84f64,
        longitude: 24.03f64,
        country: "Ukraine".to_string(),
        admin1: None,
    };
    let new_cfg = cfg.with_city(&city);
    assert_eq!(new_cfg.city_name, "Lviv");
    assert_eq!(new_cfg.latitude, 49.84);
    assert_eq!(new_cfg.longitude, 24.03);
    assert_eq!(new_cfg.tray_temp, TrayTemp::FeelsLike);
    assert_eq!(new_cfg.refresh_interval, RefreshInterval::Min60);
    assert_eq!(new_cfg.temp_unit, TempUnit::Fahrenheit);
}
