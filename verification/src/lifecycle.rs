use vstd::prelude::*;
use crate::account::{plan_account, AccountPlan};
use crate::backoff::{pow2, retry_delay_for, CERT_POLL_DELAY, MAX_READY_ATTEMPTS};
use crate::challenge::{all_admissible, derive_challenges, derived_records, ChallengeKind,
    HostAuthorization};
use crate::errors::{RunError, RunOutcome};
use crate::finalize::{cert_outputs_model, certificate_outputs, prepare_finalization};
use crate::order::{compute_excluded, identifiers_for_order, spec_excluded, spec_identifiers};
use crate::paths::{account_path, certificates_path, challenge_dir, challenge_meta_path,
    challenge_meta_paths, challenges_path, credentials_file_path, orders_meta_path, orders_path,
    spec_challenge_meta_paths, staging_directory_url};
use crate::records::{challenge_meta_contents, spec_meta_contents, HostCertificate, RecordModel};
use crate::store::Storage;

verus! {

/// Where a run stands: which action it has asked the shell to perform and
/// whose result it awaits. A run moves through these phases strictly
/// forward and never re-enters an earlier stage.
#[derive(Clone, Copy, Debug, PartialEq, Eq, Structural)]
pub enum Phase {
    /// Before the run started.
    Idle,
    /// The data directories are being created.
    AwaitDirs,
    /// The per-host challenge record files are being probed.
    AwaitProbe,
    /// The account credential file is being read.
    AwaitCredentials,
    /// A new account is being registered with the authority.
    AwaitRegistration,
    /// The new account's credentials are being persisted.
    AwaitCredentialWrite,
    /// A session is being rehydrated from persisted credentials.
    AwaitSession,
    /// The order is being submitted to the authority.
    AwaitOrder,
    /// The order's authorizations are being fetched.
    AwaitAuthorizations,
    /// The order reference is being persisted.
    AwaitOrderMetaWrite,
    /// Challenge record `idx` is being persisted.
    AwaitRecordWrite { idx: usize },
    /// Challenge record `idx` is being announced ready for validation.
    AwaitRecordSignal { idx: usize },
    /// The order's status is being checked; `attempt` refreshes have been
    /// spent so far.
    AwaitStatus { attempt: u64 },
    /// The certificate signing request has been submitted for finalization.
    AwaitFinalize,
    /// The issued certificate is being downloaded.
    AwaitCertificate,
    /// The per-host certificate files are being written.
    AwaitCertificateWrites,
    /// The run has ended.
    Done { outcome: RunOutcome },
}

/// The lifecycle status of the order, as the authority reports it.
#[derive(Clone, Copy, Debug, PartialEq, Eq, Structural)]
pub enum OrderStatus {
    Pending,
    Ready,
    Processing,
    Valid,
    Invalid,
}

/// One round of certificate download polling, as the shell reports it.
pub enum CertPoll {
    /// The authority returned the certificate chain.
    Ready { chain: String },
    /// The certificate is not ready yet; polling continues.
    NotReady,
    /// The download failed hard; the run ends.
    Failed,
}

/// What the shell reports back after performing an action.
pub enum Event {
    /// The background task was started.
    Started,
    /// The data directories were created, or creating them failed.
    DirsCreated { ok: bool },
    /// Whether each host's challenge record file exists, in host order.
    RecordsProbed { present: Vec<bool> },
    /// The credential file's contents, or `None` when there is no file.
    CredentialsRead { contents: Option<String> },
    /// The serialized credentials of the newly registered account, or
    /// `None` when the authority rejected the registration.
    AccountRegistered { credentials: Option<String> },
    /// Whether a session could be rehydrated from the stored credentials.
    SessionRestored { ok: bool },
    /// The submitted order's URL, or `None` when the authority rejected it.
    OrderSubmitted { url: Option<String> },
    /// The order's authorizations, or `None` when fetching them failed.
    AuthorizationsFetched { authzs: Option<Vec<HostAuthorization>> },
    /// A requested file write finished, or failed.
    FileWritten { ok: bool },
    /// A challenge was announced ready for validation, or the announcement
    /// failed.
    ChallengeReadySignaled { ok: bool },
    /// The signing request was submitted for finalization, or the authority
    /// rejected it.
    FinalizeSubmitted { ok: bool },
    /// The order's current status, or `None` when refreshing it failed.
    StatusChecked { status: Option<OrderStatus> },
    /// One round of certificate download polling finished.
    CertificateChecked { result: CertPoll },
}

/// What the machine asks the shell to perform next. Exactly one action is
/// emitted per step; `NoOp` asks for nothing, and is emitted only when the
/// run has ended.
pub enum Action {
    /// Nothing; the run has ended.
    NoOp,
    /// Create the four data directories, recursively and idempotently.
    CreateDirs { challenges: String, certificates: String, account: String, orders: String },
    /// Probe whether each listed challenge record file exists.
    ProbeChallengeRecords { paths: Vec<String> },
    /// Read the account credential file, if it exists.
    ReadCredentials { path: String },
    /// Rehydrate an account session from these exact persisted credentials;
    /// no registration request is made.
    RestoreSession { credentials: String },
    /// Register a new account with the authority.
    RegisterAccount { directory_url: String, contact: String, terms_of_service_agreed: bool },
    /// Persist the new account's credentials, flushed before returning.
    WriteCredentials { path: String, contents: String },
    /// Submit an order naming exactly these identifiers.
    SubmitOrder { identifiers: Vec<String> },
    /// Fetch the order's authorizations.
    FetchAuthorizations,
    /// Persist the order's URL, best effort, overwritten each run.
    WriteOrderReference { path: String, contents: String },
    /// Create `dir` and persist a challenge record file, flushed before
    /// returning; the record then becomes visible to the challenge
    /// responder.
    WriteChallengeRecord { dir: String, path: String, contents: String, host: String },
    /// Tell the authority the challenge at `url` is ready for validation.
    SignalChallengeReady { url: String },
    /// Report the order's currently known status, without a refresh.
    CheckOrderStatus,
    /// Sleep `delay` time units, refresh the order, and report its status.
    WaitAndRefresh { delay: u64 },
    /// Submit the certificate signing request to the order's finalize
    /// endpoint and report the authority's answer.
    Finalize { csr_der: Vec<u8> },
    /// Poll the certificate download endpoint once and report.
    DownloadCertificate,
    /// Sleep `delay` time units, then poll the certificate once and report.
    WaitForCertificate { delay: u64 },
    /// Create each host's certificate directory and persist its chain and
    /// key files, flushed before returning.
    WriteCertificates { outputs: Vec<HostCertificate> },
}

/// The certificate issuance service: the run's configuration and the state
/// of its single, strictly linear run.
pub struct HttpLetsencryptService {
    /// The one verification method this service selects.
    pub challenge_type: ChallengeKind,
    /// The authority's directory URL.
    pub url: String,
    /// The deployment's contact address, without the `mailto:` scheme.
    pub contact: String,
    /// The hosts this deployment certifies.
    pub hosts: Vec<String>,
    /// The challenge records of the current order.
    pub cert_store: Storage,
    /// Where the run stands.
    pub phase: Phase,
    /// The hosts excluded from this run: those that already had a record.
    pub excluded: Vec<String>,
    /// The hosts of the current order: configured minus excluded.
    pub remaining: Vec<String>,
    /// The submitted order's URL.
    pub order_url: String,
    /// The PEM of the key pair the order was finalized with.
    pub key_pem: String,
}

/// The background task configuration: the deployment's hosts and contact.
pub struct HttpLetsencrypt {
    pub contact: String,
    pub hosts: Vec<String>,
}

impl HttpLetsencrypt {
    pub fn new(hosts: &[String], contact: &str) -> (s: Self)
        ensures
            s.contact@ == contact@,
            s.hosts.deep_view() == hosts.deep_view(),
    {
        HttpLetsencrypt { contact: contact.to_owned(), hosts: clone_hosts(hosts) }
    }

    /// The service a run of this background task drives.
    pub fn service(&self) -> (s: HttpLetsencryptService)
        ensures
            new_service_ensures(s, self.hosts.deep_view(), self.contact@),
    {
        HttpLetsencryptService::new(self.hosts.as_slice(), self.contact.as_str())
    }
}

/// What a fresh service looks like: the HTTP-01 method, the staging
/// directory URL, the given hosts and contact, an empty record store, and a
/// run not yet started.
pub open spec fn new_service_ensures(
    s: HttpLetsencryptService,
    hosts: Seq<Seq<char>>,
    contact: Seq<char>,
) -> bool {
    &&& s.challenge_type == ChallengeKind::Http01
    &&& s.url@ == "https://acme-staging-v02.api.letsencrypt.org/directory"@
    &&& s.contact@ == contact
    &&& s.hosts.deep_view() == hosts
    &&& s.cert_store.records() == Seq::<RecordModel>::empty()
    &&& s.phase == Phase::Idle
    &&& s.excluded@.len() == 0
    &&& s.remaining@.len() == 0
    &&& s.order_url@.len() == 0
    &&& s.key_pem@.len() == 0
}

impl HttpLetsencryptService {
    pub fn new(hosts: &[String], contact: &str) -> (s: Self)
        ensures
            new_service_ensures(s, hosts.deep_view(), contact@),
    {
        HttpLetsencryptService {
            challenge_type: ChallengeKind::Http01,
            url: staging_directory_url().to_owned(),
            contact: contact.to_owned(),
            hosts: clone_hosts(hosts),
            cert_store: Storage::new(),
            phase: Phase::Idle,
            excluded: Vec::new(),
            remaining: Vec::new(),
            order_url: String::new(),
            key_pem: String::new(),
        }
    }

    /// The machine's phase-local well-formedness: record indices stay in
    /// range and the polling budget is never overdrawn.
    pub open spec fn wf(self) -> bool {
        match self.phase {
            Phase::AwaitOrderMetaWrite => self.cert_store.records().len() > 0,
            Phase::AwaitRecordWrite { idx } => idx < self.cert_store.records().len(),
            Phase::AwaitRecordSignal { idx } => idx < self.cert_store.records().len(),
            Phase::AwaitStatus { attempt } => attempt <= MAX_READY_ATTEMPTS,
            _ => true,
        }
    }
}

/// An owned copy of a borrowed host list.
pub fn clone_hosts(hosts: &[String]) -> (r: Vec<String>)
    ensures
        r.deep_view() == hosts.deep_view(),
{
    let n = hosts.len();
    let mut out: Vec<String> = Vec::new();
    let mut i: usize = 0;
    while i < n
        invariant
            i <= n,
            n == hosts@.len(),
            out@.len() == i,
            forall|k: int| 0 <= k < i ==> #[trigger] out.deep_view()[k] == hosts.deep_view()[k],
        decreases n - i,
    {
        let ghost pre = out.deep_view();
        out.push(hosts[i].clone());
        proof {
            assert(forall|k: int| 0 <= k < i ==> #[trigger] out.deep_view()[k] == pre[k]);
            assert(out.deep_view()[i as int] == hosts.deep_view()[i as int]);
        }
        i = i + 1;
    }
    proof {
        assert(out.deep_view() =~= hosts.deep_view());
    }
    out
}

// ---------------------------------------------------------------------------
// The step relation: what one step does, phase by phase.
// ---------------------------------------------------------------------------
/// `pre` with another phase and everything else unchanged.
pub open spec fn with_phase(pre: HttpLetsencryptService, p: Phase) -> HttpLetsencryptService {
    HttpLetsencryptService { phase: p, ..pre }
}

/// The run ended with `o`; nothing else changed.
pub open spec fn done(pre: HttpLetsencryptService, o: RunOutcome) -> HttpLetsencryptService {
    with_phase(pre, Phase::Done { outcome: o })
}

/// The run failed with `e`; nothing else changed.
pub open spec fn failed(pre: HttpLetsencryptService, e: RunError) -> HttpLetsencryptService {
    done(pre, RunOutcome::Failed(e))
}

/// An event that does not belong to the current phase aborts the run.
pub open spec fn rel_out_of_turn(
    pre: HttpLetsencryptService,
    post: HttpLetsencryptService,
    action: Action,
) -> bool {
    post == done(pre, RunOutcome::OutOfTurn) && action is NoOp
}

pub open spec fn rel_idle(
    pre: HttpLetsencryptService,
    event: Event,
    post: HttpLetsencryptService,
    action: Action,
) -> bool {
    match event {
        Event::Started => {
            &&& post == with_phase(pre, Phase::AwaitDirs)
            &&& action matches Action::CreateDirs { challenges, certificates, account, orders }
            &&& challenges@ == "./data/challenges"@
            &&& certificates@ == "./data/certificates"@
            &&& account@ == "./data/account"@
            &&& orders@ == "./data/orders"@
        },
        _ => rel_out_of_turn(pre, post, action),
    }
}

pub open spec fn rel_await_dirs(
    pre: HttpLetsencryptService,
    event: Event,
    post: HttpLetsencryptService,
    action: Action,
) -> bool {
    match event {
        Event::DirsCreated { ok } => {
            if ok {
                &&& post == with_phase(pre, Phase::AwaitProbe)
                &&& action matches Action::ProbeChallengeRecords { paths }
                &&& paths.deep_view() == spec_challenge_meta_paths(pre.hosts.deep_view())
            } else {
                post == failed(pre, RunError::Persistence) && action is NoOp
            }
        },
        _ => rel_out_of_turn(pre, post, action),
    }
}

pub open spec fn rel_await_probe(
    pre: HttpLetsencryptService,
    event: Event,
    post: HttpLetsencryptService,
    action: Action,
) -> bool {
    match event {
        Event::RecordsProbed { present } => {
            if present@.len() != pre.hosts@.len() {
                rel_out_of_turn(pre, post, action)
            } else if spec_excluded(pre.hosts.deep_view(), present@).len() == pre.hosts@.len() {
                post == done(pre, RunOutcome::AllProvisioned) && action is NoOp
            } else {
                &&& post == (HttpLetsencryptService {
                    phase: Phase::AwaitCredentials,
                    excluded: post.excluded,
                    ..pre
                })
                &&& post.excluded.deep_view() == spec_excluded(pre.hosts.deep_view(), present@)
                &&& action matches Action::ReadCredentials { path }
                &&& path@ == "./data/account/credentials.json"@
            }
        },
        _ => rel_out_of_turn(pre, post, action),
    }
}

pub open spec fn rel_await_credentials(
    pre: HttpLetsencryptService,
    event: Event,
    post: HttpLetsencryptService,
    action: Action,
) -> bool {
    match event {
        Event::CredentialsRead { contents } => match contents {
            Some(c) => {
                &&& post == with_phase(pre, Phase::AwaitSession)
                &&& action matches Action::RestoreSession { credentials }
                &&& credentials == c
            },
            None => {
                &&& post == with_phase(pre, Phase::AwaitRegistration)
                &&& action matches Action::RegisterAccount {
                    directory_url,
                    contact,
                    terms_of_service_agreed,
                }
                &&& directory_url == pre.url
                &&& contact@ == "mailto:"@ + pre.contact@
                &&& terms_of_service_agreed == true
            },
        },
        _ => rel_out_of_turn(pre, post, action),
    }
}

pub open spec fn rel_await_registration(
    pre: HttpLetsencryptService,
    event: Event,
    post: HttpLetsencryptService,
    action: Action,
) -> bool {
    match event {
        Event::AccountRegistered { credentials } => match credentials {
            Some(c) => {
                &&& post == with_phase(pre, Phase::AwaitCredentialWrite)
                &&& action matches Action::WriteCredentials { path, contents }
                &&& path@ == "./data/account/credentials.json"@
                &&& contents == c
            },
            None => post == failed(pre, RunError::Protocol) && action is NoOp,
        },
        _ => rel_out_of_turn(pre, post, action),
    }
}

/// With the account at hand, the order is submitted — unless exclusion left
/// no identifiers, in which case the run short-circuits without any network
/// call.
pub open spec fn rel_submits_order(
    pre: HttpLetsencryptService,
    post: HttpLetsencryptService,
    action: Action,
) -> bool {
    let ids = spec_identifiers(pre.hosts.deep_view(), pre.excluded.deep_view());
    if ids.len() == 0 {
        post == done(pre, RunOutcome::NoHostsRemaining) && action is NoOp
    } else {
        &&& post == (HttpLetsencryptService {
            phase: Phase::AwaitOrder,
            remaining: post.remaining,
            ..pre
        })
        &&& post.remaining.deep_view() == ids
        &&& action matches Action::SubmitOrder { identifiers }
        &&& identifiers.deep_view() == ids
    }
}

pub open spec fn rel_await_session(
    pre: HttpLetsencryptService,
    event: Event,
    post: HttpLetsencryptService,
    action: Action,
) -> bool {
    match event {
        Event::SessionRestored { ok } => {
            if ok {
                rel_submits_order(pre, post, action)
            } else {
                post == failed(pre, RunError::Protocol) && action is NoOp
            }
        },
        _ => rel_out_of_turn(pre, post, action),
    }
}

pub open spec fn rel_await_credential_write(
    pre: HttpLetsencryptService,
    event: Event,
    post: HttpLetsencryptService,
    action: Action,
) -> bool {
    match event {
        Event::FileWritten { ok } => {
            if ok {
                rel_submits_order(pre, post, action)
            } else {
                post == failed(pre, RunError::Persistence) && action is NoOp
            }
        },
        _ => rel_out_of_turn(pre, post, action),
    }
}

pub open spec fn rel_await_order(
    pre: HttpLetsencryptService,
    event: Event,
    post: HttpLetsencryptService,
    action: Action,
) -> bool {
    match event {
        Event::OrderSubmitted { url } => match url {
            Some(u) => {
                &&& post == (HttpLetsencryptService {
                    phase: Phase::AwaitAuthorizations,
                    order_url: post.order_url,
                    ..pre
                })
                &&& post.order_url == u
                &&& action is FetchAuthorizations
            },
            None => post == failed(pre, RunError::Protocol) && action is NoOp,
        },
        _ => rel_out_of_turn(pre, post, action),
    }
}

pub open spec fn rel_await_authorizations(
    pre: HttpLetsencryptService,
    event: Event,
    post: HttpLetsencryptService,
    action: Action,
) -> bool {
    match event {
        Event::AuthorizationsFetched { authzs } => match authzs {
            Some(az) => {
                if !all_admissible(az@) {
                    post == failed(pre, RunError::Authorization) && action is NoOp
                } else if derived_records(az@).len() == 0 {
                    // No records produced: the run terminates here, before
                    // the order reference is written.
                    post == done(pre, RunOutcome::NoRecords) && action is NoOp
                } else {
                    &&& post == (HttpLetsencryptService {
                        phase: Phase::AwaitOrderMetaWrite,
                        cert_store: post.cert_store,
                        ..pre
                    })
                    &&& post.cert_store.records() == derived_records(az@)
                    &&& action matches Action::WriteOrderReference { path, contents }
                    &&& path@ == "./data/orders/meta.txt"@
                    &&& contents == pre.order_url
                }
            },
            None => post == failed(pre, RunError::Protocol) && action is NoOp,
        },
        _ => rel_out_of_turn(pre, post, action),
    }
}

/// Challenge record `idx` is persisted next: its directory, file path and
/// CSV contents all name the record's own host.
pub open spec fn rel_writes_record(
    pre: HttpLetsencryptService,
    idx: usize,
    post: HttpLetsencryptService,
    action: Action,
) -> bool {
    let rec = pre.cert_store.records()[idx as int];
    &&& post == with_phase(pre, Phase::AwaitRecordWrite { idx })
    &&& action matches Action::WriteChallengeRecord { dir, path, contents, host }
    &&& dir@ == "./data/challenges/"@ + rec.host
    &&& path@ == "./data/challenges/"@ + rec.host + "/meta.csv"@
    &&& contents@ == spec_meta_contents(rec)
    &&& host@ == rec.host
}

pub open spec fn rel_await_order_meta_write(
    pre: HttpLetsencryptService,
    event: Event,
    post: HttpLetsencryptService,
    action: Action,
) -> bool {
    match event {
        Event::FileWritten { ok } => {
            if ok {
                rel_writes_record(pre, 0, post, action)
            } else {
                post == failed(pre, RunError::Persistence) && action is NoOp
            }
        },
        _ => rel_out_of_turn(pre, post, action),
    }
}

pub open spec fn rel_await_record_write(
    pre: HttpLetsencryptService,
    idx: usize,
    event: Event,
    post: HttpLetsencryptService,
    action: Action,
) -> bool {
    match event {
        Event::FileWritten { ok } => {
            if ok {
                &&& post == with_phase(pre, Phase::AwaitRecordSignal { idx })
                &&& action matches Action::SignalChallengeReady { url }
                &&& url@ == pre.cert_store.records()[idx as int].url
            } else {
                post == failed(pre, RunError::Persistence) && action is NoOp
            }
        },
        _ => rel_out_of_turn(pre, post, action),
    }
}

pub open spec fn rel_await_record_signal(
    pre: HttpLetsencryptService,
    idx: usize,
    event: Event,
    post: HttpLetsencryptService,
    action: Action,
) -> bool {
    match event {
        Event::ChallengeReadySignaled { ok } => {
            if !ok {
                post == failed(pre, RunError::Protocol) && action is NoOp
            } else if idx + 1 < pre.cert_store.records().len() {
                rel_writes_record(pre, (idx + 1) as usize, post, action)
            } else {
                &&& post == with_phase(pre, Phase::AwaitStatus { attempt: 0 })
                &&& action is CheckOrderStatus
            }
        },
        _ => rel_out_of_turn(pre, post, action),
    }
}

/// On a Ready order the machine builds the finalization material. The
/// crypto backend decides success: either a signing request is submitted
/// and the key's PEM is retained, or the run fails with `Protocol`.
pub open spec fn rel_finalizes(
    pre: HttpLetsencryptService,
    post: HttpLetsencryptService,
    action: Action,
) -> bool {
    ||| {
        &&& post == (HttpLetsencryptService {
            phase: Phase::AwaitFinalize,
            key_pem: post.key_pem,
            ..pre
        })
        &&& post.key_pem@.len() > 0
        &&& action is Finalize
    }
    ||| (post == failed(pre, RunError::Protocol) && action is NoOp)
}

pub open spec fn rel_await_status(
    pre: HttpLetsencryptService,
    attempt: u64,
    event: Event,
    post: HttpLetsencryptService,
    action: Action,
) -> bool {
    match event {
        Event::StatusChecked { status } => match status {
            Some(st) => {
                if st == OrderStatus::Ready {
                    rel_finalizes(pre, post, action)
                } else if attempt >= MAX_READY_ATTEMPTS {
                    post == done(pre, RunOutcome::GaveUp) && action is NoOp
                } else {
                    &&& post == with_phase(
                        pre,
                        Phase::AwaitStatus { attempt: (attempt + 1) as u64 },
                    )
                    &&& action matches Action::WaitAndRefresh { delay }
                    &&& delay == pow2(attempt as nat)
                }
            },
            None => post == failed(pre, RunError::Protocol) && action is NoOp,
        },
        _ => rel_out_of_turn(pre, post, action),
    }
}

pub open spec fn rel_await_finalize(
    pre: HttpLetsencryptService,
    event: Event,
    post: HttpLetsencryptService,
    action: Action,
) -> bool {
    match event {
        Event::FinalizeSubmitted { ok } => {
            if ok {
                &&& post == with_phase(pre, Phase::AwaitCertificate)
                &&& action is DownloadCertificate
            } else {
                post == failed(pre, RunError::Protocol) && action is NoOp
            }
        },
        _ => rel_out_of_turn(pre, post, action),
    }
}

/// One round of certificate download polling: the chain completes the run's
/// outputs, a miss waits five time units and polls again, a hard error ends
/// the run.
pub open spec fn rel_await_certificate_poll(
    pre: HttpLetsencryptService,
    result: CertPoll,
    post: HttpLetsencryptService,
    action: Action,
) -> bool {
    match result {
        CertPoll::Ready { chain } => {
            &&& post == with_phase(pre, Phase::AwaitCertificateWrites)
            &&& action matches Action::WriteCertificates { outputs }
            &&& outputs.deep_view() == cert_outputs_model(
                pre.remaining.deep_view(),
                chain@,
                pre.key_pem@,
                0,
            )
        },
        CertPoll::NotReady => {
            &&& post == with_phase(pre, Phase::AwaitCertificate)
            &&& action matches Action::WaitForCertificate { delay }
            &&& delay == CERT_POLL_DELAY
        },
        CertPoll::Failed => post == failed(pre, RunError::Protocol) && action is NoOp,
    }
}

pub open spec fn rel_await_certificate(
    pre: HttpLetsencryptService,
    event: Event,
    post: HttpLetsencryptService,
    action: Action,
) -> bool {
    match event {
        Event::CertificateChecked { result } => rel_await_certificate_poll(
            pre,
            result,
            post,
            action,
        ),
        _ => rel_out_of_turn(pre, post, action),
    }
}

pub open spec fn rel_await_certificate_writes(
    pre: HttpLetsencryptService,
    event: Event,
    post: HttpLetsencryptService,
    action: Action,
) -> bool {
    match event {
        Event::FileWritten { ok } => {
            if ok {
                post == done(pre, RunOutcome::Issued) && action is NoOp
            } else {
                post == failed(pre, RunError::Persistence) && action is NoOp
            }
        },
        _ => rel_out_of_turn(pre, post, action),
    }
}

impl HttpLetsencryptService {
    /// Ends the run with `o`.
    fn finish(&mut self, o: RunOutcome) -> (action: Action)
        ensures
            *final(self) == done(*old(self), o),
            action is NoOp,
            final(self).wf(),
    {
        self.phase = Phase::Done { outcome: o };
        Action::NoOp
    }

    /// Ends the run with the error `e`.
    fn fail(&mut self, e: RunError) -> (action: Action)
        ensures
            *final(self) == failed(*old(self), e),
            action is NoOp,
            final(self).wf(),
    {
        self.finish(RunOutcome::Failed(e))
    }

    /// Ends the run on an event that does not belong to the current phase.
    fn abort(&mut self) -> (action: Action)
        ensures
            rel_out_of_turn(*old(self), *final(self), action),
            final(self).wf(),
    {
        self.finish(RunOutcome::OutOfTurn)
    }

    /// Submits the order for the non-excluded hosts, or short-circuits the
    /// run when none remain.
    fn submit_order(&mut self) -> (action: Action)
        ensures
            rel_submits_order(*old(self), *final(self), action),
            final(self).wf(),
    {
        let ids = identifiers_for_order(&self.hosts, &self.excluded);
        if ids.len() == 0 {
            self.finish(RunOutcome::NoHostsRemaining)
        } else {
            self.remaining = identifiers_for_order(&self.hosts, &self.excluded);
            self.phase = Phase::AwaitOrder;
            Action::SubmitOrder { identifiers: ids }
        }
    }

    /// Asks the shell to persist challenge record `idx`.
    fn emit_record_write(&mut self, idx: usize) -> (action: Action)
        requires
            idx < old(self).cert_store.records().len(),
        ensures
            rel_writes_record(*old(self), idx, *final(self), action),
            final(self).wf(),
    {
        let orders = self.cert_store.get_orders();
        proof {
            assert(orders.deep_view()[idx as int] == old(self).cert_store.records()[idx as int]);
        }
        let rec = &orders[idx];
        let dir = challenge_dir(rec.host.as_str());
        let path = challenge_meta_path(rec.host.as_str());
        let contents = challenge_meta_contents(rec);
        let host = rec.host.clone();
        self.phase = Phase::AwaitRecordWrite { idx };
        Action::WriteChallengeRecord { dir, path, contents, host }
    }

    /// Handles one round of certificate download polling.
    fn handle_cert_poll(&mut self, result: CertPoll) -> (action: Action)
        ensures
            rel_await_certificate_poll(*old(self), result, *final(self), action),
            final(self).wf(),
    {
        match result {
            CertPoll::Ready { chain } => {
                let outputs = certificate_outputs(
                    &self.remaining,
                    chain.as_str(),
                    self.key_pem.as_str(),
                    0,
                );
                self.phase = Phase::AwaitCertificateWrites;
                Action::WriteCertificates { outputs }
            },
            CertPoll::NotReady => {
                self.phase = Phase::AwaitCertificate;
                Action::WaitForCertificate { delay: CERT_POLL_DELAY }
            },
            CertPoll::Failed => self.fail(RunError::Protocol),
        }
    }

    /// Performs one step of the run: takes the event the shell delivered,
    /// moves to the next phase, and returns the one action the shell is to
    /// perform next.
    pub fn step(&mut self, event: Event) -> (action: Action)
        requires
            old(self).wf(),
        ensures
            step_rel(*old(self), event, *final(self), action),
            final(self).wf(),
    {
        let ph = self.phase;
        match ph {
            Phase::Idle => match event {
                Event::Started => {
                    self.phase = Phase::AwaitDirs;
                    Action::CreateDirs {
                        challenges: challenges_path().to_owned(),
                        certificates: certificates_path().to_owned(),
                        account: account_path().to_owned(),
                        orders: orders_path().to_owned(),
                    }
                },
                _ => self.abort(),
            },
            Phase::AwaitDirs => match event {
                Event::DirsCreated { ok } => {
                    if ok {
                        let paths = challenge_meta_paths(&self.hosts);
                        self.phase = Phase::AwaitProbe;
                        Action::ProbeChallengeRecords { paths }
                    } else {
                        self.fail(RunError::Persistence)
                    }
                },
                _ => self.abort(),
            },
            Phase::AwaitProbe => match event {
                Event::RecordsProbed { present } => {
                    if present.len() != self.hosts.len() {
                        self.abort()
                    } else {
                        let excluded = compute_excluded(&self.hosts, &present);
                        if excluded.len() == self.hosts.len() {
                            self.finish(RunOutcome::AllProvisioned)
                        } else {
                            self.excluded = excluded;
                            self.phase = Phase::AwaitCredentials;
                            Action::ReadCredentials { path: credentials_file_path() }
                        }
                    }
                },
                _ => self.abort(),
            },
            Phase::AwaitCredentials => match event {
                Event::CredentialsRead { contents } => {
                    match plan_account(contents, self.contact.as_str()) {
                        AccountPlan::Reuse { credentials } => {
                            self.phase = Phase::AwaitSession;
                            Action::RestoreSession { credentials }
                        },
                        AccountPlan::Register { contact, terms_of_service_agreed } => {
                            self.phase = Phase::AwaitRegistration;
                            Action::RegisterAccount {
                                directory_url: self.url.clone(),
                                contact,
                                terms_of_service_agreed,
                            }
                        },
                    }
                },
                _ => self.abort(),
            },
            Phase::AwaitRegistration => match event {
                Event::AccountRegistered { credentials } => match credentials {
                    Some(c) => {
                        self.phase = Phase::AwaitCredentialWrite;
                        Action::WriteCredentials {
                            path: credentials_file_path(),
                            contents: c,
                        }
                    },
                    None => self.fail(RunError::Protocol),
                },
                _ => self.abort(),
            },
            Phase::AwaitCredentialWrite => match event {
                Event::FileWritten { ok } => {
                    if ok {
                        self.submit_order()
                    } else {
                        self.fail(RunError::Persistence)
                    }
                },
                _ => self.abort(),
            },
            Phase::AwaitSession => match event {
                Event::SessionRestored { ok } => {
                    if ok {
                        self.submit_order()
                    } else {
                        self.fail(RunError::Protocol)
                    }
                },
                _ => self.abort(),
            },
            Phase::AwaitOrder => match event {
                Event::OrderSubmitted { url } => match url {
                    Some(u) => {
                        self.order_url = u;
                        self.phase = Phase::AwaitAuthorizations;
                        Action::FetchAuthorizations
                    },
                    None => self.fail(RunError::Protocol),
                },
                _ => self.abort(),
            },
            Phase::AwaitAuthorizations => match event {
                Event::AuthorizationsFetched { authzs } => match authzs {
                    Some(az) => match derive_challenges(&az) {
                        Ok(records) => {
                            if records.is_empty() {
                                // No records produced: terminate before the
                                // order reference is written.
                                self.finish(RunOutcome::NoRecords)
                            } else {
                                self.cert_store = Storage::from_records(records);
                                self.phase = Phase::AwaitOrderMetaWrite;
                                Action::WriteOrderReference {
                                    path: orders_meta_path(),
                                    contents: self.order_url.clone(),
                                }
                            }
                        },
                        Err(_) => self.fail(RunError::Authorization),
                    },
                    None => self.fail(RunError::Protocol),
                },
                _ => self.abort(),
            },
            Phase::AwaitOrderMetaWrite => match event {
                Event::FileWritten { ok } => {
                    if ok {
                        self.emit_record_write(0)
                    } else {
                        self.fail(RunError::Persistence)
                    }
                },
                _ => self.abort(),
            },
            Phase::AwaitRecordWrite { idx } => match event {
                Event::FileWritten { ok } => {
                    if ok {
                        let url = {
                            let orders = self.cert_store.get_orders();
                            proof {
                                assert(orders.deep_view()[idx as int]
                                    == self.cert_store.records()[idx as int]);
                            }
                            orders[idx].url.clone()
                        };
                        self.phase = Phase::AwaitRecordSignal { idx };
                        Action::SignalChallengeReady { url }
                    } else {
                        self.fail(RunError::Persistence)
                    }
                },
                _ => self.abort(),
            },
            Phase::AwaitRecordSignal { idx } => match event {
                Event::ChallengeReadySignaled { ok } => {
                    if !ok {
                        self.fail(RunError::Protocol)
                    } else {
                        let len = self.cert_store.len();
                        if idx + 1 < len {
                            self.emit_record_write(idx + 1)
                        } else {
                            self.phase = Phase::AwaitStatus { attempt: 0 };
                            Action::CheckOrderStatus
                        }
                    }
                },
                _ => self.abort(),
            },
            Phase::AwaitStatus { attempt } => match event {
                Event::StatusChecked { status } => match status {
                    Some(st) => {
                        if st == OrderStatus::Ready {
                            match prepare_finalization(&self.remaining) {
                                Ok(m) => {
                                    self.key_pem = m.key_pem;
                                    self.phase = Phase::AwaitFinalize;
                                    Action::Finalize { csr_der: m.csr_der }
                                },
                                Err(_) => self.fail(RunError::Protocol),
                            }
                        } else if attempt >= MAX_READY_ATTEMPTS {
                            self.finish(RunOutcome::GaveUp)
                        } else {
                            let delay = retry_delay_for(attempt);
                            self.phase = Phase::AwaitStatus { attempt: attempt + 1 };
                            Action::WaitAndRefresh { delay }
                        }
                    },
                    None => self.fail(RunError::Protocol),
                },
                _ => self.abort(),
            },
            Phase::AwaitFinalize => match event {
                Event::FinalizeSubmitted { ok } => {
                    if ok {
                        self.phase = Phase::AwaitCertificate;
                        Action::DownloadCertificate
                    } else {
                        self.fail(RunError::Protocol)
                    }
                },
                _ => self.abort(),
            },
            Phase::AwaitCertificate => match event {
                Event::CertificateChecked { result } => self.handle_cert_poll(result),
                _ => self.abort(),
            },
            Phase::AwaitCertificateWrites => match event {
                Event::FileWritten { ok } => {
                    if ok {
                        self.finish(RunOutcome::Issued)
                    } else {
                        self.fail(RunError::Persistence)
                    }
                },
                _ => self.abort(),
            },
            Phase::Done { .. } => Action::NoOp,
        }
    }
}

/// The machine's one-step relation: given the phase the run stood in and
/// the event the shell delivered, it pins the successor state and the
/// emitted action. A finished run absorbs every further event.
pub open spec fn step_rel(
    pre: HttpLetsencryptService,
    event: Event,
    post: HttpLetsencryptService,
    action: Action,
) -> bool {
    match pre.phase {
        Phase::Idle => rel_idle(pre, event, post, action),
        Phase::AwaitDirs => rel_await_dirs(pre, event, post, action),
        Phase::AwaitProbe => rel_await_probe(pre, event, post, action),
        Phase::AwaitCredentials => rel_await_credentials(pre, event, post, action),
        Phase::AwaitRegistration => rel_await_registration(pre, event, post, action),
        Phase::AwaitCredentialWrite => rel_await_credential_write(pre, event, post, action),
        Phase::AwaitSession => rel_await_session(pre, event, post, action),
        Phase::AwaitOrder => rel_await_order(pre, event, post, action),
        Phase::AwaitAuthorizations => rel_await_authorizations(pre, event, post, action),
        Phase::AwaitOrderMetaWrite => rel_await_order_meta_write(pre, event, post, action),
        Phase::AwaitRecordWrite { idx } => rel_await_record_write(pre, idx, event, post, action),
        Phase::AwaitRecordSignal { idx } => rel_await_record_signal(pre, idx, event, post, action),
        Phase::AwaitStatus { attempt } => rel_await_status(pre, attempt, event, post, action),
        Phase::AwaitFinalize => rel_await_finalize(pre, event, post, action),
        Phase::AwaitCertificate => rel_await_certificate(pre, event, post, action),
        Phase::AwaitCertificateWrites => rel_await_certificate_writes(pre, event, post, action),
        Phase::Done { .. } => post == pre && action is NoOp,
    }
}

// ---------------------------------------------------------------------------
// Laws of the machine.
// ---------------------------------------------------------------------------
/// Idempotent bootstrap: when the credential file exists, the step reuses
/// exactly its contents to rehydrate the session, and never emits a
/// registration request — so no second account can come into being.
pub proof fn lemma_run_reuses_existing_account(
    pre: HttpLetsencryptService,
    contents: String,
    post: HttpLetsencryptService,
    action: Action,
)
    requires
        pre.phase == Phase::AwaitCredentials,
        step_rel(pre, Event::CredentialsRead { contents: Some(contents) }, post, action),
    ensures
        action matches Action::RestoreSession { credentials } && credentials == contents,
        !(action matches Action::RegisterAccount { .. }),
        post == with_phase(pre, Phase::AwaitSession),
{
}

proof fn lemma_all_present_excludes_all(hosts: Seq<Seq<char>>, present: Seq<bool>)
    requires
        hosts.len() == present.len(),
        forall|i: int| 0 <= i < present.len() ==> present[i],
    ensures
        spec_excluded(hosts, present).len() == hosts.len(),
    decreases hosts.len(),
{
    if hosts.len() > 0 {
        lemma_all_present_excludes_all(hosts.drop_last(), present.drop_last());
    }
}

/// Short-circuit: when every host's challenge record already exists, the
/// run ends at the probe with nothing to do — it emits no further action,
/// so no network call and no write can follow.
pub proof fn lemma_short_circuit(
    pre: HttpLetsencryptService,
    present: Vec<bool>,
    post: HttpLetsencryptService,
    action: Action,
)
    requires
        pre.phase == Phase::AwaitProbe,
        present@.len() == pre.hosts@.len(),
        forall|i: int| 0 <= i < present@.len() ==> present@[i],
        step_rel(pre, Event::RecordsProbed { present }, post, action),
    ensures
        post == done(pre, RunOutcome::AllProvisioned),
        action is NoOp,
{
    lemma_all_present_excludes_all(pre.hosts.deep_view(), present@);
}

/// Exclusion correctness: whenever the step submits an order, the
/// submitted identifiers are exactly the configured hosts without a
/// challenge record — each appears if and only if it is configured and not
/// excluded.
pub proof fn lemma_submitted_identifiers(
    pre: HttpLetsencryptService,
    post: HttpLetsencryptService,
    action: Action,
)
    requires
        rel_submits_order(pre, post, action),
    ensures
        action matches Action::SubmitOrder { identifiers } ==> forall|h: Seq<char>|
            #[trigger] identifiers.deep_view().contains(h) <==> (pre.hosts.deep_view().contains(h)
                && !pre.excluded.deep_view().contains(h)),
{
    crate::order::lemma_exclusion_correctness(pre.hosts.deep_view(), pre.excluded.deep_view());
}

/// One round of the backoff schedule: below the cap of ten attempts, a
/// not-Ready order costs a wait of exactly `2^attempt` time units before
/// the next refresh; at the cap the run gives up silently, with no error
/// and no further action.
pub proof fn lemma_backoff_step(
    pre: HttpLetsencryptService,
    attempt: u64,
    st: OrderStatus,
    post: HttpLetsencryptService,
    action: Action,
)
    requires
        pre.phase == (Phase::AwaitStatus { attempt }),
        st != OrderStatus::Ready,
        step_rel(pre, Event::StatusChecked { status: Some(st) }, post, action),
    ensures
        attempt < MAX_READY_ATTEMPTS ==> {
            &&& action matches Action::WaitAndRefresh { delay }
            &&& delay == pow2(attempt as nat)
            &&& post == with_phase(pre, Phase::AwaitStatus { attempt: (attempt + 1) as u64 })
        },
        attempt >= MAX_READY_ATTEMPTS ==> post == done(pre, RunOutcome::GaveUp) && action is NoOp,
{
}

/// The full backoff schedule: a readiness poll that never sees a Ready
/// order waits exactly ten times, 1, 2, 4, 8, 16, 32, 64, 128, 256 and 512
/// time units in that order, and then ends the run silently — the cap is
/// never overrun and no error is raised.
pub proof fn lemma_backoff_schedule(
    states: Seq<HttpLetsencryptService>,
    statuses: Seq<OrderStatus>,
    actions: Seq<Action>,
)
    requires
        states.len() == 12,
        statuses.len() == 11,
        actions.len() == 11,
        states[0].phase == (Phase::AwaitStatus { attempt: 0u64 }),
        forall|i: int| 0 <= i < 11 ==> statuses[i] != OrderStatus::Ready,
        forall|i: int|
            0 <= i < 11 ==> step_rel(
                #[trigger] states[i],
                Event::StatusChecked { status: Some(statuses[i]) },
                states[i + 1],
                actions[i],
            ),
    ensures
        forall|i: int|
            0 <= i < 10 ==> #[trigger] actions[i] == (Action::WaitAndRefresh {
                delay: pow2(i as nat) as u64,
            }),
        states[11] == done(states[10], RunOutcome::GaveUp),
        actions[10] is NoOp,
{
    crate::backoff::lemma_pow2_concrete();
    assert forall|i: int| 0 <= i <= 10 implies #[trigger] states[i].phase == (Phase::AwaitStatus {
        attempt: i as u64,
    }) && (i < 10 ==> actions[i] == (Action::WaitAndRefresh { delay: pow2(i as nat) as u64 }))
        by {
        lemma_backoff_prefix(states, statuses, actions, i);
    }
    assert(states[10].phase == (Phase::AwaitStatus { attempt: 10u64 }));
}

/// Every prefix of a never-Ready poll keeps counting attempts upward and
/// waits `2^i` units at attempt `i`.
proof fn lemma_backoff_prefix(
    states: Seq<HttpLetsencryptService>,
    statuses: Seq<OrderStatus>,
    actions: Seq<Action>,
    n: int,
)
    requires
        states.len() == 12,
        statuses.len() == 11,
        actions.len() == 11,
        states[0].phase == (Phase::AwaitStatus { attempt: 0u64 }),
        forall|i: int| 0 <= i < 11 ==> statuses[i] != OrderStatus::Ready,
        forall|i: int|
            0 <= i < 11 ==> step_rel(
                #[trigger] states[i],
                Event::StatusChecked { status: Some(statuses[i]) },
                states[i + 1],
                actions[i],
            ),
        0 <= n <= 10,
    ensures
        states[n].phase == (Phase::AwaitStatus { attempt: n as u64 }),
        n < 10 ==> actions[n] == (Action::WaitAndRefresh { delay: pow2(n as nat) as u64 }),
    decreases n,
{
    if n > 0 {
        lemma_backoff_prefix(states, statuses, actions, n - 1);
        assert(step_rel(
            states[n - 1],
            Event::StatusChecked { status: Some(statuses[n - 1]) },
            states[n],
            actions[n - 1],
        ));
    }
}

/// The stage a phase belongs to, in run order. Stages only ever grow over
/// a run.
pub open spec fn phase_stage(p: Phase) -> int {
    match p {
        Phase::Idle => 0,
        Phase::AwaitDirs => 1,
        Phase::AwaitProbe => 2,
        Phase::AwaitCredentials => 3,
        Phase::AwaitRegistration => 4,
        Phase::AwaitSession => 4,
        Phase::AwaitCredentialWrite => 5,
        Phase::AwaitOrder => 6,
        Phase::AwaitAuthorizations => 7,
        Phase::AwaitOrderMetaWrite => 8,
        Phase::AwaitRecordWrite { .. } => 9,
        Phase::AwaitRecordSignal { .. } => 9,
        Phase::AwaitStatus { .. } => 10,
        Phase::AwaitFinalize => 11,
        Phase::AwaitCertificate => 12,
        Phase::AwaitCertificateWrites => 13,
        Phase::Done { .. } => 14,
    }
}

/// Progress within a stage: the record being persisted, or the refresh
/// attempts spent. Never shrinks while the stage stands still.
pub open spec fn phase_progress(p: Phase) -> int {
    match p {
        Phase::AwaitRecordWrite { idx } => 2 * idx,
        Phase::AwaitRecordSignal { idx } => 2 * idx + 1,
        Phase::AwaitStatus { attempt } => attempt as int,
        _ => 0,
    }
}

/// A run is strictly linear: no step ever re-enters an earlier stage, and
/// within the record-persisting and polling stages each step moves the
/// record index or the attempt count forward. The only steps that stand
/// still are certificate download polling and a finished run.
pub proof fn lemma_run_never_reenters_a_stage(
    pre: HttpLetsencryptService,
    event: Event,
    post: HttpLetsencryptService,
    action: Action,
)
    requires
        pre.cert_store.records().len() <= usize::MAX,
        step_rel(pre, event, post, action),
    ensures
        phase_stage(post.phase) > phase_stage(pre.phase) || (phase_stage(post.phase)
            == phase_stage(pre.phase) && phase_progress(post.phase) >= phase_progress(pre.phase)),
{
}

} // verus!

