use vstd::prelude::*;
use vstd::string::*;
use crate::records::RecordModel;
use crate::store::{spec_find_host, Storage};
use crate::strutil::{concat3, concat5, has_prefix, last_segment, spec_has_prefix,
    spec_last_segment, str_eq};

verus! {

/// The response a plaintext (non-TLS) request receives from the proxy.
pub enum PlainResponse {
    /// `400`: the request named no host at all.
    BadRequest,
    /// `200 OK`, `text/plain`, body `pong`: the liveness path.
    Pong,
    /// `200 OK`, `text/plain`, body = the key-authorization proof of the
    /// host's persisted challenge record.
    ChallengeOk { proof: String },
    /// `404`: a challenge path for a host without a record, or with a token
    /// other than the record's.
    NotFound,
    /// `308`: any other plaintext request, sent to the HTTPS equivalent of
    /// the same path and query.
    Redirect { location: String },
}

/// The host a request is served under: the `Host` header when present, else
/// the URI's host part, else empty.
pub fn effective_host(header_host: Option<String>, uri_host: Option<String>) -> (r: String)
    ensures
        match header_host {
            Some(h) => r == h,
            None => match uri_host {
                Some(u) => r == u,
                None => r@ == Seq::<char>::empty(),
            },
        },
{
    match header_host {
        Some(h) => h,
        None => match uri_host {
            Some(u) => u,
            None => String::new(),
        },
    }
}

/// The HTTPS location a plaintext request is redirected to: the same host,
/// path and query under the `https` scheme.
pub open spec fn spec_redirect_location(
    host: Seq<char>,
    path: Seq<char>,
    query: Option<Seq<char>>,
) -> Seq<char> {
    match query {
        Some(q) => "https://"@ + host + path + "?"@ + q,
        None => "https://"@ + host + path,
    }
}

pub open spec fn query_view(query: Option<&str>) -> Option<Seq<char>> {
    match query {
        Some(q) => Some(q@),
        None => None,
    }
}

/// What `route_plain_request` returns, for every request.
pub open spec fn route_ensures(
    records: Seq<RecordModel>,
    host: Seq<char>,
    path: Seq<char>,
    query: Option<Seq<char>>,
    r: PlainResponse,
) -> bool {
    if host.len() == 0 {
        r is BadRequest
    } else if path == "/ping"@ {
        r is Pong
    } else if spec_has_prefix(path, "/.well-known/acme-challenge"@) {
        let at = spec_find_host(records, host);
        if at == -1 {
            r is NotFound
        } else if records[at].token == spec_last_segment(path) {
            r matches PlainResponse::ChallengeOk { proof } && proof@ == records[at].proof
        } else {
            r is NotFound
        }
    } else {
        r matches PlainResponse::Redirect { location } && location@ == spec_redirect_location(
            host,
            path,
            query,
        )
    }
}

/// Routes one plaintext request.
///
/// A request without a host is refused. The liveness path answers `pong`.
/// A challenge path serves the proof of the host's record when the path's
/// trailing token matches the record's token, and `404` otherwise. Every
/// other request is permanently redirected to its HTTPS equivalent.
pub fn route_plain_request(store: &Storage, host: &str, path: &str, query: Option<&str>) -> (r:
    PlainResponse)
    ensures
        route_ensures(store.records(), host@, path@, query_view(query), r),
{
    if host.unicode_len() == 0 {
        return PlainResponse::BadRequest;
    }
    if str_eq(path, "/ping") {
        return PlainResponse::Pong;
    }
    if has_prefix(path, "/.well-known/acme-challenge") {
        match store.lookup(host) {
            None => {
                return PlainResponse::NotFound;
            },
            Some(rec) => {
                let token_from_url = last_segment(path);
                if rec.token.eq(&token_from_url) {
                    return PlainResponse::ChallengeOk { proof: rec.proof.clone() };
                }
                return PlainResponse::NotFound;
            },
        }
    }
    let location = match query {
        Some(q) => concat5("https://", host, path, "?", q),
        None => concat3("https://", host, path),
    };
    PlainResponse::Redirect { location }
}

/// Challenge round trip, serving half: with a host's record in the store,
/// a challenge-path request whose trailing token is the record's token is
/// answered with exactly the record's proof.
pub proof fn lemma_round_trip_serves_proof(
    rec: RecordModel,
    host: Seq<char>,
    path: Seq<char>,
    query: Option<Seq<char>>,
    r: PlainResponse,
)
    requires
        rec.host == host,
        host.len() > 0,
        path != "/ping"@,
        spec_has_prefix(path, "/.well-known/acme-challenge"@),
        spec_last_segment(path) == rec.token,
        route_ensures(seq![rec], host, path, query, r),
    ensures
        r matches PlainResponse::ChallengeOk { proof } && proof@ == rec.proof,
{
    assert(spec_find_host(seq![rec], host) == 0);
}

/// Challenge round trip, refusing half: a challenge-path request whose
/// trailing token differs from the host's record is answered `404`.
pub proof fn lemma_wrong_token_not_found(
    rec: RecordModel,
    host: Seq<char>,
    path: Seq<char>,
    query: Option<Seq<char>>,
    r: PlainResponse,
)
    requires
        rec.host == host,
        host.len() > 0,
        path != "/ping"@,
        spec_has_prefix(path, "/.well-known/acme-challenge"@),
        spec_last_segment(path) != rec.token,
        route_ensures(seq![rec], host, path, query, r),
    ensures
        r is NotFound,
{
    assert(spec_find_host(seq![rec], host) == 0);
}

} // verus!
