use request_counter::service::{handle_request, is_health_path};
use request_counter::request::{client_ip, make_key};
use request_counter::{CountingStore, DEFAULT_TTL_MILLIS};

const TTL: u64 = 1000;

#[test]
fn ip_header_wins() {
    let ip = client_ip(Some(String::from("203.0.113.5")), String::from("10.0.0.1"));
    assert_eq!(ip, "203.0.113.5");
}

#[test]
fn ip_falls_back_to_peer_when_header_missing() {
    let ip = client_ip(None, String::from("10.0.0.1"));
    assert_eq!(ip, "10.0.0.1");
}

#[test]
fn ip_falls_back_to_peer_when_header_empty() {
    let ip = client_ip(Some(String::new()), String::from("10.0.0.1"));
    assert_eq!(ip, "10.0.0.1");
}

#[test]
fn make_key_joins_ip_and_path() {
    assert_eq!(make_key("1.2.3.4", "/foo"), "1.2.3.4:/foo");
}

#[test]
fn health_path_is_recognized() {
    assert!(is_health_path("/healthz"));
    assert!(!is_health_path("/foo"));
    assert!(!is_health_path("/"));
}

#[test]
fn health_requests_are_not_counted() {
    let mut store = CountingStore::new();
    let resp = handle_request(
        &mut store,
        String::from("/foo"),
        None,
        String::from("10.0.0.1"),
        TTL,
        0,
    )
    .unwrap();
    assert_eq!(resp.total, 1);
    for _ in 0..5 {
        let health = handle_request(
            &mut store,
            String::from("/healthz"),
            None,
            String::from("10.0.0.1"),
            TTL,
            0,
        );
        assert!(health.is_none());
    }
    assert_eq!(store.get("10.0.0.1:/foo", TTL, 0), 1);
    assert_eq!(store.get("10.0.0.1:/healthz", TTL, 0), 0);
}

#[test]
fn response_shape_after_one_prior_request() {
    let mut store = CountingStore::new();
    handle_request(
        &mut store,
        String::from("/foo"),
        None,
        String::from("10.0.0.1"),
        TTL,
        0,
    );
    let resp = handle_request(
        &mut store,
        String::from("/foo"),
        None,
        String::from("10.0.0.1"),
        TTL,
        0,
    )
    .unwrap();
    assert_eq!(resp.total, 2);
    assert_eq!(resp.ip, "10.0.0.1");
    assert_eq!(resp.path, "/foo");
}

#[test]
fn header_and_peer_count_under_distinct_keys() {
    let mut store = CountingStore::new();
    let with_header = handle_request(
        &mut store,
        String::from("/foo"),
        Some(String::from("203.0.113.5")),
        String::from("10.0.0.1"),
        TTL,
        0,
    )
    .unwrap();
    assert_eq!(with_header.ip, "203.0.113.5");
    assert_eq!(with_header.total, 1);
    let without = handle_request(
        &mut store,
        String::from("/foo"),
        None,
        String::from("10.0.0.1"),
        TTL,
        0,
    )
    .unwrap();
    assert_eq!(without.ip, "10.0.0.1");
    assert_eq!(without.total, 1);
}

#[test]
fn default_ttl_is_fifteen_minutes() {
    assert_eq!(DEFAULT_TTL_MILLIS, 900_000);
}
