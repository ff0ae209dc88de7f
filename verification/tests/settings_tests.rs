use nimbus::settings::{debounce, Debounce, SearchState, SearchView};

#[test]
fn nothing_typed_means_idle() {
    assert_eq!(debounce(None, "Kyiv"), Debounce::Idle);
}

#[test]
fn short_pause_waits() {
    assert_eq!(debounce(Some(0), "Kyiv"), Debounce::Wait);
    assert_eq!(debounce(Some(299), "Kyiv"), Debounce::Wait);
}

#[test]
fn long_pause_searches_trimmed_query() {
    assert_eq!(debounce(Some(300), "  Kyiv \n"), Debounce::Search("Kyiv".to_string()));
    assert_eq!(debounce(Some(5000), "New York"), Debounce::Search("New York".to_string()));
}

#[test]
fn long_pause_with_blank_query_expires() {
    assert_eq!(debounce(Some(300), "   "), Debounce::Expired);
    assert_eq!(debounce(Some(300), ""), Debounce::Expired);
}

#[test]
fn search_state_starts_empty() {
    let s: SearchState<u32> = SearchState::new();
    assert_eq!(s.view(), SearchView::Empty);
}

#[test]
fn search_shows_spinner_then_choices() {
    let mut s: SearchState<u32> = SearchState::new();
    s.start();
    assert_eq!(s.view(), SearchView::Loading);
    s.finish(Ok(vec![7, 8]));
    assert_eq!(s.view(), SearchView::Choices);
    assert_eq!(s.results, vec![7, 8]);
    s.clear_results();
    assert_eq!(s.view(), SearchView::Empty);
}

#[test]
fn failed_search_shows_error_until_next_start() {
    let mut s: SearchState<u32> = SearchState::new();
    s.start();
    s.finish(Err("offline".to_string()));
    assert_eq!(s.view(), SearchView::Failed);
    assert_eq!(s.error.as_deref(), Some("offline"));
    s.start();
    assert_eq!(s.error, None);
    assert_eq!(s.view(), SearchView::Loading);
    s.finish(Ok(vec![]));
    assert_eq!(s.view(), SearchView::Empty);
}
