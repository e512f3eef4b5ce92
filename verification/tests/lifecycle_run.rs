use acme_http01::challenge::{AuthzStatus, ChallengeInfo, ChallengeKind, HostAuthorization};
use acme_http01::errors::{RunError, RunOutcome};
use acme_http01::lifecycle::{Action, CertPoll, Event, HttpLetsencrypt, HttpLetsencryptService,
    OrderStatus, Phase};

fn hosts(names: &[&str]) -> Vec<String> {
    names.iter().map(|n| n.to_string()).collect()
}

fn http01_challenge(token: &str, url: &str, proof: &str) -> ChallengeInfo {
    ChallengeInfo {
        kind: ChallengeKind::Http01,
        token: token.to_string(),
        url: url.to_string(),
        proof: proof.to_string(),
    }
}

fn dns01_challenge() -> ChallengeInfo {
    ChallengeInfo {
        kind: ChallengeKind::Dns01,
        token: "dns-token".to_string(),
        url: "https://ca/dns".to_string(),
        proof: "dns-proof".to_string(),
    }
}

fn valid_authz(host: &str, token: &str, url: &str, proof: &str) -> HostAuthorization {
    HostAuthorization {
        host: host.to_string(),
        status: AuthzStatus::Valid,
        challenges: vec![dns01_challenge(), http01_challenge(token, url, proof)],
    }
}

fn new_service(names: &[&str]) -> HttpLetsencryptService {
    HttpLetsencryptService::new(&hosts(names), "admin@example.com")
}

/// Walks a fresh service up to the point where the credential file's
/// contents are delivered, with no host excluded.
fn walk_to_credentials(svc: &mut HttpLetsencryptService, n_hosts: usize) {
    let a = svc.step(Event::Started);
    assert!(matches!(a, Action::CreateDirs { .. }));
    let a = svc.step(Event::DirsCreated { ok: true });
    assert!(matches!(a, Action::ProbeChallengeRecords { .. }));
    let a = svc.step(Event::RecordsProbed { present: vec![false; n_hosts] });
    assert!(matches!(a, Action::ReadCredentials { .. }));
}

#[test]
fn started_run_creates_directories() {
    let mut svc = new_service(&["a.example"]);
    match svc.step(Event::Started) {
        Action::CreateDirs { challenges, certificates, account, orders } => {
            assert_eq!(challenges, "./data/challenges");
            assert_eq!(certificates, "./data/certificates");
            assert_eq!(account, "./data/account");
            assert_eq!(orders, "./data/orders");
        },
        _ => panic!("expected CreateDirs"),
    }
    assert_eq!(svc.phase, Phase::AwaitDirs);
}

#[test]
fn probe_paths_name_every_host() {
    let mut svc = new_service(&["a.example", "b.example"]);
    svc.step(Event::Started);
    match svc.step(Event::DirsCreated { ok: true }) {
        Action::ProbeChallengeRecords { paths } => {
            assert_eq!(
                paths,
                vec![
                    "./data/challenges/a.example/meta.csv".to_string(),
                    "./data/challenges/b.example/meta.csv".to_string(),
                ]
            );
        },
        _ => panic!("expected ProbeChallengeRecords"),
    }
}

#[test]
fn short_circuit_when_all_hosts_excluded() {
    let mut svc = new_service(&["a.example", "b.example"]);
    svc.step(Event::Started);
    svc.step(Event::DirsCreated { ok: true });
    let a = svc.step(Event::RecordsProbed { present: vec![true, true] });
    assert!(matches!(a, Action::NoOp));
    assert_eq!(svc.phase, Phase::Done { outcome: RunOutcome::AllProvisioned });
    // The finished run asks for nothing further, whatever arrives.
    let a = svc.step(Event::SessionRestored { ok: true });
    assert!(matches!(a, Action::NoOp));
}

#[test]
fn exclusion_submits_only_unrecorded_hosts() {
    let mut svc = new_service(&["a.example", "b.example"]);
    svc.step(Event::Started);
    svc.step(Event::DirsCreated { ok: true });
    // Only a.example has challenges/a.example/meta.csv.
    let a = svc.step(Event::RecordsProbed { present: vec![true, false] });
    assert!(matches!(a, Action::ReadCredentials { .. }));
    svc.step(Event::CredentialsRead { contents: Some("creds".to_string()) });
    match svc.step(Event::SessionRestored { ok: true }) {
        Action::SubmitOrder { identifiers } => {
            assert_eq!(identifiers, vec!["b.example".to_string()]);
        },
        _ => panic!("expected SubmitOrder"),
    }
}

#[test]
fn existing_credentials_are_reused_never_reregistered() {
    let mut svc = new_service(&["a.example"]);
    walk_to_credentials(&mut svc, 1);
    match svc.step(Event::CredentialsRead { contents: Some("file-contents".to_string()) }) {
        Action::RestoreSession { credentials } => assert_eq!(credentials, "file-contents"),
        _ => panic!("expected RestoreSession, never RegisterAccount"),
    }
    // A second run over the same file plans the identical session.
    let mut svc2 = new_service(&["a.example"]);
    walk_to_credentials(&mut svc2, 1);
    match svc2.step(Event::CredentialsRead { contents: Some("file-contents".to_string()) }) {
        Action::RestoreSession { credentials } => assert_eq!(credentials, "file-contents"),
        _ => panic!("expected RestoreSession, never RegisterAccount"),
    }
}

#[test]
fn missing_credentials_register_with_mailto_contact() {
    let mut svc = new_service(&["a.example"]);
    walk_to_credentials(&mut svc, 1);
    match svc.step(Event::CredentialsRead { contents: None }) {
        Action::RegisterAccount { directory_url, contact, terms_of_service_agreed } => {
            assert_eq!(directory_url, "https://acme-staging-v02.api.letsencrypt.org/directory");
            assert_eq!(contact, "mailto:admin@example.com");
            assert!(terms_of_service_agreed);
        },
        _ => panic!("expected RegisterAccount"),
    }
    match svc.step(Event::AccountRegistered { credentials: Some("new-creds".to_string()) }) {
        Action::WriteCredentials { path, contents } => {
            assert_eq!(path, "./data/account/credentials.json");
            assert_eq!(contents, "new-creds");
        },
        _ => panic!("expected WriteCredentials"),
    }
}

#[test]
fn rejected_registration_fails_with_protocol() {
    let mut svc = new_service(&["a.example"]);
    walk_to_credentials(&mut svc, 1);
    svc.step(Event::CredentialsRead { contents: None });
    let a = svc.step(Event::AccountRegistered { credentials: None });
    assert!(matches!(a, Action::NoOp));
    assert_eq!(svc.phase, Phase::Done { outcome: RunOutcome::Failed(RunError::Protocol) });
}

#[test]
fn duplicate_host_leaves_no_identifiers() {
    // Both entries name the same host; its record exists once, so exclusion
    // empties the identifier set and the run short-circuits without a
    // network call.
    let mut svc = new_service(&["a.example", "a.example"]);
    svc.step(Event::Started);
    svc.step(Event::DirsCreated { ok: true });
    svc.step(Event::RecordsProbed { present: vec![true, false] });
    svc.step(Event::CredentialsRead { contents: Some("creds".to_string()) });
    let a = svc.step(Event::SessionRestored { ok: true });
    assert!(matches!(a, Action::NoOp));
    assert_eq!(svc.phase, Phase::Done { outcome: RunOutcome::NoHostsRemaining });
}

#[test]
fn directory_failure_is_persistence_error() {
    let mut svc = new_service(&["a.example"]);
    svc.step(Event::Started);
    let a = svc.step(Event::DirsCreated { ok: false });
    assert!(matches!(a, Action::NoOp));
    assert_eq!(svc.phase, Phase::Done { outcome: RunOutcome::Failed(RunError::Persistence) });
}

#[test]
fn rejected_order_is_protocol_error() {
    let mut svc = new_service(&["a.example"]);
    walk_to_credentials(&mut svc, 1);
    svc.step(Event::CredentialsRead { contents: Some("creds".to_string()) });
    svc.step(Event::SessionRestored { ok: true });
    let a = svc.step(Event::OrderSubmitted { url: None });
    assert!(matches!(a, Action::NoOp));
    assert_eq!(svc.phase, Phase::Done { outcome: RunOutcome::Failed(RunError::Protocol) });
}

#[test]
fn invalid_authorization_aborts_coordination() {
    let mut svc = new_service(&["a.example"]);
    walk_to_credentials(&mut svc, 1);
    svc.step(Event::CredentialsRead { contents: Some("creds".to_string()) });
    svc.step(Event::SessionRestored { ok: true });
    svc.step(Event::OrderSubmitted { url: Some("https://ca/order/1".to_string()) });
    let bad = HostAuthorization {
        host: "a.example".to_string(),
        status: AuthzStatus::Invalid,
        challenges: vec![http01_challenge("t", "u", "p")],
    };
    let a = svc.step(Event::AuthorizationsFetched { authzs: Some(vec![bad]) });
    assert!(matches!(a, Action::NoOp));
    assert_eq!(svc.phase, Phase::Done { outcome: RunOutcome::Failed(RunError::Authorization) });
}

#[test]
fn valid_authorization_without_http01_aborts_coordination() {
    let mut svc = new_service(&["a.example"]);
    walk_to_credentials(&mut svc, 1);
    svc.step(Event::CredentialsRead { contents: Some("creds".to_string()) });
    svc.step(Event::SessionRestored { ok: true });
    svc.step(Event::OrderSubmitted { url: Some("https://ca/order/1".to_string()) });
    let bad = HostAuthorization {
        host: "a.example".to_string(),
        status: AuthzStatus::Valid,
        challenges: vec![dns01_challenge()],
    };
    let a = svc.step(Event::AuthorizationsFetched { authzs: Some(vec![bad]) });
    assert!(matches!(a, Action::NoOp));
    assert_eq!(svc.phase, Phase::Done { outcome: RunOutcome::Failed(RunError::Authorization) });
}

#[test]
fn pending_authorizations_are_skipped() {
    let mut svc = new_service(&["a.example", "b.example"]);
    walk_to_credentials(&mut svc, 2);
    svc.step(Event::CredentialsRead { contents: Some("creds".to_string()) });
    svc.step(Event::SessionRestored { ok: true });
    svc.step(Event::OrderSubmitted { url: Some("https://ca/order/1".to_string()) });
    let pending = HostAuthorization {
        host: "a.example".to_string(),
        status: AuthzStatus::Pending,
        challenges: vec![http01_challenge("ta", "ua", "pa")],
    };
    let authzs = vec![pending, valid_authz("b.example", "tb", "https://ca/chal/b", "pb")];
    let a = svc.step(Event::AuthorizationsFetched { authzs: Some(authzs) });
    assert!(matches!(a, Action::WriteOrderReference { .. }));
    // Only b.example's record exists; it is written first and last.
    match svc.step(Event::FileWritten { ok: true }) {
        Action::WriteChallengeRecord { host, contents, .. } => {
            assert_eq!(host, "b.example");
            assert_eq!(contents, "https://ca/chal/b;pb;tb");
        },
        _ => panic!("expected WriteChallengeRecord"),
    }
    let a = svc.step(Event::FileWritten { ok: true });
    assert!(matches!(a, Action::SignalChallengeReady { .. }));
    let a = svc.step(Event::ChallengeReadySignaled { ok: true });
    assert!(matches!(a, Action::CheckOrderStatus));
}

#[test]
fn no_records_terminates_before_order_reference_write() {
    // Every authorization is Pending, so derivation yields no records: the
    // run ends right there, and in particular the order reference is never
    // written.
    let mut svc = new_service(&["a.example"]);
    walk_to_credentials(&mut svc, 1);
    svc.step(Event::CredentialsRead { contents: Some("creds".to_string()) });
    svc.step(Event::SessionRestored { ok: true });
    svc.step(Event::OrderSubmitted { url: Some("https://ca/order/1".to_string()) });
    let pending = HostAuthorization {
        host: "a.example".to_string(),
        status: AuthzStatus::Pending,
        challenges: vec![http01_challenge("t", "u", "p")],
    };
    let a = svc.step(Event::AuthorizationsFetched { authzs: Some(vec![pending]) });
    assert!(matches!(a, Action::NoOp));
    assert_eq!(svc.phase, Phase::Done { outcome: RunOutcome::NoRecords });
}

#[test]
fn backoff_waits_ten_times_then_gives_up_silently() {
    let mut svc = new_service(&["a.example"]);
    svc.phase = Phase::AwaitStatus { attempt: 0 };
    let mut delays: Vec<u64> = Vec::new();
    loop {
        match svc.step(Event::StatusChecked { status: Some(OrderStatus::Pending) }) {
            Action::WaitAndRefresh { delay } => delays.push(delay),
            Action::NoOp => break,
            _ => panic!("expected WaitAndRefresh or NoOp"),
        }
    }
    assert_eq!(delays, vec![1, 2, 4, 8, 16, 32, 64, 128, 256, 512]);
    assert_eq!(svc.phase, Phase::Done { outcome: RunOutcome::GaveUp });
    // Past the cap nothing is thrown and nothing more happens.
    let a = svc.step(Event::StatusChecked { status: Some(OrderStatus::Pending) });
    assert!(matches!(a, Action::NoOp));
    assert_eq!(svc.phase, Phase::Done { outcome: RunOutcome::GaveUp });
}

#[test]
fn refresh_failure_is_protocol_error() {
    let mut svc = new_service(&["a.example"]);
    svc.phase = Phase::AwaitStatus { attempt: 3 };
    let a = svc.step(Event::StatusChecked { status: None });
    assert!(matches!(a, Action::NoOp));
    assert_eq!(svc.phase, Phase::Done { outcome: RunOutcome::Failed(RunError::Protocol) });
}

#[test]
fn out_of_turn_event_aborts_the_run() {
    let mut svc = new_service(&["a.example"]);
    svc.step(Event::Started);
    let a = svc.step(Event::CertificateChecked { result: CertPoll::NotReady });
    assert!(matches!(a, Action::NoOp));
    assert_eq!(svc.phase, Phase::Done { outcome: RunOutcome::OutOfTurn });
}

#[test]
fn full_run_issues_shared_certificates() {
    let mut svc = new_service(&["a.example", "b.example"]);
    svc.step(Event::Started);
    svc.step(Event::DirsCreated { ok: true });
    svc.step(Event::RecordsProbed { present: vec![false, false] });
    svc.step(Event::CredentialsRead { contents: None });
    svc.step(Event::AccountRegistered { credentials: Some("creds".to_string()) });
    match svc.step(Event::FileWritten { ok: true }) {
        Action::SubmitOrder { identifiers } => {
            assert_eq!(identifiers, vec!["a.example".to_string(), "b.example".to_string()]);
        },
        _ => panic!("expected SubmitOrder"),
    }
    svc.step(Event::OrderSubmitted { url: Some("https://ca/order/7".to_string()) });
    let authzs = vec![
        valid_authz("a.example", "ta", "https://ca/chal/a", "pa"),
        valid_authz("b.example", "tb", "https://ca/chal/b", "pb"),
    ];
    match svc.step(Event::AuthorizationsFetched { authzs: Some(authzs) }) {
        Action::WriteOrderReference { path, contents } => {
            assert_eq!(path, "./data/orders/meta.txt");
            assert_eq!(contents, "https://ca/order/7");
        },
        _ => panic!("expected WriteOrderReference"),
    }
    match svc.step(Event::FileWritten { ok: true }) {
        Action::WriteChallengeRecord { dir, path, contents, host } => {
            assert_eq!(dir, "./data/challenges/a.example");
            assert_eq!(path, "./data/challenges/a.example/meta.csv");
            assert_eq!(contents, "https://ca/chal/a;pa;ta");
            assert_eq!(host, "a.example");
        },
        _ => panic!("expected WriteChallengeRecord"),
    }
    match svc.step(Event::FileWritten { ok: true }) {
        Action::SignalChallengeReady { url } => assert_eq!(url, "https://ca/chal/a"),
        _ => panic!("expected SignalChallengeReady"),
    }
    match svc.step(Event::ChallengeReadySignaled { ok: true }) {
        Action::WriteChallengeRecord { host, .. } => assert_eq!(host, "b.example"),
        _ => panic!("expected WriteChallengeRecord"),
    }
    svc.step(Event::FileWritten { ok: true });
    let a = svc.step(Event::ChallengeReadySignaled { ok: true });
    assert!(matches!(a, Action::CheckOrderStatus));
    match svc.step(Event::StatusChecked { status: Some(OrderStatus::Pending) }) {
        Action::WaitAndRefresh { delay } => assert_eq!(delay, 1),
        _ => panic!("expected WaitAndRefresh"),
    }
    // The order turns Ready: a key pair and signing request are prepared.
    match svc.step(Event::StatusChecked { status: Some(OrderStatus::Ready) }) {
        Action::Finalize { csr_der } => assert!(!csr_der.is_empty()),
        _ => panic!("expected Finalize"),
    }
    assert!(svc.key_pem.contains("PRIVATE KEY"));
    let a = svc.step(Event::FinalizeSubmitted { ok: true });
    assert!(matches!(a, Action::DownloadCertificate));
    match svc.step(Event::CertificateChecked { result: CertPoll::NotReady }) {
        Action::WaitForCertificate { delay } => assert_eq!(delay, 5),
        _ => panic!("expected WaitForCertificate"),
    }
    let chain = "-----BEGIN CERTIFICATE-----\nshared\n-----END CERTIFICATE-----\n";
    match svc.step(Event::CertificateChecked { result: CertPoll::Ready { chain: chain.to_string() } }) {
        Action::WriteCertificates { outputs } => {
            assert_eq!(outputs.len(), 2);
            assert_eq!(outputs[0].host, "a.example");
            assert_eq!(outputs[1].host, "b.example");
            // Certificate batch sharing: identical chain and key bytes.
            assert_eq!(outputs[0].cert, chain);
            assert_eq!(outputs[1].cert, chain);
            assert_eq!(outputs[0].key, outputs[1].key);
            assert!(outputs[0].key.contains("PRIVATE KEY"));
        },
        _ => panic!("expected WriteCertificates"),
    }
    let a = svc.step(Event::FileWritten { ok: true });
    assert!(matches!(a, Action::NoOp));
    assert_eq!(svc.phase, Phase::Done { outcome: RunOutcome::Issued });
}

#[test]
fn service_carries_configuration() {
    let le = HttpLetsencrypt::new(&hosts(&["a.example"]), "admin@example.com");
    assert_eq!(le.contact, "admin@example.com");
    assert_eq!(le.hosts, vec!["a.example".to_string()]);
    let svc = le.service();
    assert_eq!(svc.contact, "admin@example.com");
    assert_eq!(svc.hosts, vec!["a.example".to_string()]);
    assert_eq!(svc.url, "https://acme-staging-v02.api.letsencrypt.org/directory");
    assert_eq!(svc.phase, Phase::Idle);
}

#[test]
fn certificate_download_failure_is_protocol_error() {
    let mut svc = new_service(&["a.example"]);
    svc.phase = Phase::AwaitCertificate;
    let a = svc.step(Event::CertificateChecked { result: CertPoll::Failed });
    assert!(matches!(a, Action::NoOp));
    assert_eq!(svc.phase, Phase::Done { outcome: RunOutcome::Failed(RunError::Protocol) });
}
