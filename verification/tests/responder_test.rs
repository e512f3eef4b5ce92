use acme_http01::responder::{effective_host, route_plain_request, PlainResponse};
use acme_http01::store::Storage;

fn store_with_example_record() -> Storage {
    let mut store = Storage::new();
    store.add_order(
        "example.com".to_string(),
        "abc".to_string(),
        "https://ca/chal/1".to_string(),
        "xyz".to_string(),
    );
    store
}

#[test]
fn challenge_round_trip_serves_the_proof() {
    let store = store_with_example_record();
    match route_plain_request(&store, "example.com", "/.well-known/acme-challenge/abc", None) {
        PlainResponse::ChallengeOk { proof } => assert_eq!(proof, "xyz"),
        _ => panic!("expected 200 with the proof body"),
    }
}

#[test]
fn challenge_with_wrong_token_is_not_found() {
    let store = store_with_example_record();
    let r = route_plain_request(&store, "example.com", "/.well-known/acme-challenge/def", None);
    assert!(matches!(r, PlainResponse::NotFound));
}

#[test]
fn challenge_for_unknown_host_is_not_found() {
    let store = store_with_example_record();
    let r = route_plain_request(&store, "other.com", "/.well-known/acme-challenge/abc", None);
    assert!(matches!(r, PlainResponse::NotFound));
}

#[test]
fn plain_request_redirects_to_https_with_query() {
    let store = store_with_example_record();
    match route_plain_request(&store, "example.com", "/foo", Some("x=1")) {
        PlainResponse::Redirect { location } => {
            assert_eq!(location, "https://example.com/foo?x=1");
        },
        _ => panic!("expected a permanent redirect"),
    }
}

#[test]
fn plain_request_redirects_to_https_without_query() {
    let store = Storage::new();
    match route_plain_request(&store, "example.com", "/foo/bar", None) {
        PlainResponse::Redirect { location } => {
            assert_eq!(location, "https://example.com/foo/bar");
        },
        _ => panic!("expected a permanent redirect"),
    }
}

#[test]
fn ping_answers_pong() {
    let store = Storage::new();
    let r = route_plain_request(&store, "example.com", "/ping", None);
    assert!(matches!(r, PlainResponse::Pong));
}

#[test]
fn request_without_host_is_bad_request() {
    let store = store_with_example_record();
    let r = route_plain_request(&store, "", "/foo", None);
    assert!(matches!(r, PlainResponse::BadRequest));
}

#[test]
fn host_header_wins_over_uri_host() {
    let h = effective_host(Some("from-header".to_string()), Some("from-uri".to_string()));
    assert_eq!(h, "from-header");
    let h = effective_host(None, Some("from-uri".to_string()));
    assert_eq!(h, "from-uri");
    let h = effective_host(None, None);
    assert_eq!(h, "");
}
