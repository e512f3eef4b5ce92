use acme_http01::paths::{cert_pem_path, challenge_dir, challenge_meta_path,
    credentials_file_path, key_pem_path, orders_meta_path, staging_directory_url};
use acme_http01::records::{challenge_meta_contents, parse_challenge_meta, ChallengeRecord};
use acme_http01::store::Storage;

fn record(host: &str, url: &str, token: &str, proof: &str) -> ChallengeRecord {
    ChallengeRecord {
        host: host.to_string(),
        url: url.to_string(),
        token: token.to_string(),
        proof: proof.to_string(),
    }
}

#[test]
fn meta_contents_are_url_proof_token() {
    let r = record("example.com", "https://ca/chal/1", "abc", "xyz");
    assert_eq!(challenge_meta_contents(&r), "https://ca/chal/1;xyz;abc");
}

#[test]
fn meta_round_trip_recovers_the_fields() {
    let r = record("example.com", "https://ca/chal/1", "abc", "xyz");
    let s = challenge_meta_contents(&r);
    let (url, proof, token) = parse_challenge_meta(&s).expect("two separators");
    assert_eq!(url, "https://ca/chal/1");
    assert_eq!(proof, "xyz");
    assert_eq!(token, "abc");
}

#[test]
fn meta_with_one_separator_does_not_parse() {
    assert!(parse_challenge_meta("only;one").is_none());
    assert!(parse_challenge_meta("none").is_none());
    assert!(parse_challenge_meta("").is_none());
}

#[test]
fn meta_splits_at_the_first_two_separators() {
    let (url, proof, token) = parse_challenge_meta("u;p;t;rest").expect("two separators");
    assert_eq!(url, "u");
    assert_eq!(proof, "p");
    assert_eq!(token, "t;rest");
}

#[test]
fn store_keeps_insertion_order() {
    let mut store = Storage::new();
    store.add_order("a".to_string(), "t1".to_string(), "u1".to_string(), "p1".to_string());
    store.add_order("b".to_string(), "t2".to_string(), "u2".to_string(), "p2".to_string());
    let orders = store.get_orders();
    assert_eq!(orders.len(), 2);
    assert_eq!(orders[0].host, "a");
    assert_eq!(orders[1].host, "b");
    assert_eq!(orders[0].token, "t1");
    assert_eq!(orders[0].url, "u1");
    assert_eq!(orders[0].proof, "p1");
}

#[test]
fn store_replaces_the_record_of_a_host() {
    let mut store = Storage::new();
    store.add_order("a".to_string(), "t1".to_string(), "u1".to_string(), "p1".to_string());
    store.add_order("a".to_string(), "t2".to_string(), "u2".to_string(), "p2".to_string());
    assert_eq!(store.len(), 1);
    let rec = store.lookup("a").expect("record for a");
    assert_eq!(rec.token, "t2");
    assert_eq!(rec.url, "u2");
    assert_eq!(rec.proof, "p2");
}

#[test]
fn store_lookup_misses_unknown_hosts() {
    let mut store = Storage::new();
    assert!(store.is_empty());
    assert!(store.lookup("a").is_none());
    store.add_order("a".to_string(), "t".to_string(), "u".to_string(), "p".to_string());
    assert!(!store.is_empty());
    assert!(store.lookup("b").is_none());
}

#[test]
fn layout_paths_are_fixed() {
    assert_eq!(credentials_file_path(), "./data/account/credentials.json");
    assert_eq!(orders_meta_path(), "./data/orders/meta.txt");
    assert_eq!(challenge_dir("h.example"), "./data/challenges/h.example");
    assert_eq!(challenge_meta_path("h.example"), "./data/challenges/h.example/meta.csv");
    assert_eq!(cert_pem_path("h.example"), "./data/certificates/h.example/cert.pem");
    assert_eq!(key_pem_path("h.example"), "./data/certificates/h.example/key.pem");
    assert_eq!(
        staging_directory_url(),
        "https://acme-staging-v02.api.letsencrypt.org/directory"
    );
}
