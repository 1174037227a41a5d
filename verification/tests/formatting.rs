use bender::display::{decimal_string, padded2_string};
use bender::player::format_duration;
use bender::query::resolver_query;

#[test]
fn duration_seconds_only() {
    assert_eq!(format_duration(Some(45)), "00:45");
}

#[test]
fn duration_with_hours() {
    assert_eq!(format_duration(Some(3661)), "01:01:01");
}

#[test]
fn duration_absent_is_live() {
    assert_eq!(format_duration(None), "Live");
}

#[test]
fn duration_zero() {
    assert_eq!(format_duration(Some(0)), "00:00");
}

#[test]
fn duration_full_minute() {
    assert_eq!(format_duration(Some(60)), "01:00");
}

#[test]
fn duration_last_second_before_hour() {
    assert_eq!(format_duration(Some(3599)), "59:59");
}

#[test]
fn duration_full_hour() {
    assert_eq!(format_duration(Some(3600)), "01:00:00");
}

#[test]
fn duration_hours_beyond_two_digits() {
    assert_eq!(format_duration(Some(360_000)), "100:00:00");
}

#[test]
fn decimal_renders_digits() {
    assert_eq!(decimal_string(0), "0");
    assert_eq!(decimal_string(7), "7");
    assert_eq!(decimal_string(45), "45");
    assert_eq!(decimal_string(1903), "1903");
}

#[test]
fn padded_keeps_two_places() {
    assert_eq!(padded2_string(3), "03");
    assert_eq!(padded2_string(10), "10");
    assert_eq!(padded2_string(100), "100");
}

#[test]
fn search_term_becomes_search_request() {
    assert_eq!(resolver_query("never gonna".to_string()), "ytsearch1:never gonna");
}

#[test]
fn direct_uri_passes_through() {
    assert_eq!(
        resolver_query("https://example.test/watch?v=1".to_string()),
        "https://example.test/watch?v=1"
    );
}

#[test]
fn bare_scheme_prefix_counts_as_uri() {
    assert_eq!(resolver_query("http".to_string()), "http");
}

#[test]
fn short_query_becomes_search_request() {
    assert_eq!(resolver_query("htt".to_string()), "ytsearch1:htt");
}

#[test]
fn empty_query_becomes_empty_search_request() {
    assert_eq!(resolver_query(String::new()), "ytsearch1:");
}
