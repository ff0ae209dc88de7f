use nimbus::geo::{accept_ip_location, first_results, search_url, GeoResult, IpLocation, LocationError};

fn city(name: &str, country: &str, admin1: Option<&str>) -> GeoResult<f64> {
    GeoResult {
        name: name.to_string(),
        latitude: 50.45,
        longitude: 30.52,
        country: country.to_string(),
        admin1: admin1.map(|s| s.to_string()),
    }
}

#[test]
fn label_without_region() {
    assert_eq!(city("Kyiv", "Ukraine", None).display_label(), "Kyiv, Ukraine");
}

#[test]
fn label_with_region() {
    assert_eq!(
        city("Kyiv", "Ukraine", Some("Kyiv Oblast")).display_label(),
        "Kyiv, Kyiv Oblast, Ukraine"
    );
}

#[test]
fn label_with_empty_region() {
    assert_eq!(city("Kyiv", "Ukraine", Some("")).display_label(), "Kyiv, Ukraine");
}

#[test]
fn label_with_missing_country() {
    assert_eq!(city("Atlantis", "", None).display_label(), "Atlantis, ");
}

#[test]
fn blank_query_asks_nothing() {
    assert_eq!(search_url("", 8), None);
    assert_eq!(search_url("   \t\n", 8), None);
    assert_eq!(search_url("\u{3000}\u{a0}", 8), None);
}

#[test]
fn query_is_percent_encoded() {
    assert_eq!(
        search_url("New York", 8).unwrap(),
        "https://geocoding-api.open-meteo.com/v1/search?name=New%20York&count=8&language=en&format=json"
    );
}

#[test]
fn untrimmed_query_is_sent_as_typed() {
    assert_eq!(
        search_url(" Kyiv ", 10).unwrap(),
        "https://geocoding-api.open-meteo.com/v1/search?name=%20Kyiv%20&count=10&language=en&format=json"
    );
}

#[test]
fn non_ascii_query_is_encoded_by_utf8_bytes() {
    assert_eq!(
        search_url("Київ", 255).unwrap(),
        "https://geocoding-api.open-meteo.com/v1/search?name=%D0%9A%D0%B8%D1%97%D0%B2&count=255&language=en&format=json"
    );
}

#[test]
fn unreserved_characters_stay() {
    assert_eq!(
        search_url("a-b_c.d~e&f", 0).unwrap(),
        "https://geocoding-api.open-meteo.com/v1/search?name=a-b_c.d~e%26f&count=0&language=en&format=json"
    );
}

#[test]
fn successful_location_is_accepted() {
    let loc = IpLocation { city: "Kyiv".to_string(), lat: 50.45f64, lon: 30.52f64, status: "success".to_string() };
    let r = accept_ip_location(loc).unwrap();
    assert_eq!(r.city, "Kyiv");
    assert_eq!(r.lat, 50.45);
}

#[test]
fn failed_location_is_refused() {
    let loc = IpLocation { city: String::new(), lat: 0.0f64, lon: 0.0f64, status: "fail".to_string() };
    assert_eq!(accept_ip_location(loc).unwrap_err(), LocationError::NotSuccess);
}

#[test]
fn search_keeps_at_most_count_results() {
    assert_eq!(first_results(vec![1, 2, 3, 4, 5], 3), vec![1, 2, 3]);
    assert_eq!(first_results(vec![1, 2], 8), vec![1, 2]);
    assert_eq!(first_results(vec![1, 2], 0), Vec::<i32>::new());
    assert_eq!(first_results(Vec::<i32>::new(), 8), Vec::<i32>::new());
}
