use commit_filter::engine::SLICE_SIZE;
use commit_filter::revlog::{FilterChange, LogRequest, Revlog};

#[test]
fn filter_text_starts_and_ends_filtering() {
    let mut r = Revlog::new();
    let c = r.filter("fix".to_string());
    assert_eq!(c, FilterChange { filter: Some("fix".to_string()), refresh: true });
    assert!(r.is_filtering());
    let c = r.filter("fixe".to_string());
    assert_eq!(c, FilterChange { filter: Some("fixe".to_string()), refresh: false });
    let c = r.filter(String::new());
    assert_eq!(c, FilterChange { filter: None, refresh: false });
    assert!(!r.is_filtering());
    let c = r.filter("x".to_string());
    assert!(c.refresh);
}

#[test]
fn commits_request_window() {
    let mut r = Revlog::new();
    assert_eq!(r.commits_request(1000), LogRequest { start: 400, amount: SLICE_SIZE, window_start: 400 });
    assert_eq!(r.commits_request(10), LogRequest { start: 0, amount: SLICE_SIZE, window_start: 0 });
    r.filter("a".to_string());
    assert_eq!(r.commits_request(1000), LogRequest { start: 0, amount: usize::MAX, window_start: 0 });
}

#[test]
fn only_visible_view_fetches() {
    let mut r = Revlog::new();
    assert!(!r.should_fetch_commits(true, true));
    r.set_visible(true);
    assert!(r.is_visible());
    assert!(r.should_fetch_commits(true, false));
    assert!(r.should_fetch_commits(false, true));
    assert!(!r.should_fetch_commits(false, false));
}
