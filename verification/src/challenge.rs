use vstd::prelude::*;
use crate::errors::RunError;
use crate::records::{ChallengeRecord, RecordModel};

verus! {

/// The verification method of a candidate challenge. Only the HTTP-01
/// variant is ever selected.
#[derive(Clone, Copy, Debug, PartialEq, Eq, Structural)]
pub enum ChallengeKind {
    Http01,
    Dns01,
    TlsAlpn01,
    Other,
}

/// The status of an authorization, as the authority reports it.
#[derive(Clone, Copy, Debug, PartialEq, Eq, Structural)]
pub enum AuthzStatus {
    Pending,
    Valid,
    Invalid,
    Expired,
    Deactivated,
    Revoked,
}

/// One candidate challenge of an authorization: its method, token, challenge
/// URL, and the key-authorization proof bound to the account key.
pub struct ChallengeInfo {
    pub kind: ChallengeKind,
    pub token: String,
    pub url: String,
    pub proof: String,
}

/// One authorization of an order: the host it certifies, its status, and its
/// candidate challenges.
pub struct HostAuthorization {
    pub host: String,
    pub status: AuthzStatus,
    pub challenges: Vec<ChallengeInfo>,
}

pub open spec fn is_http01(c: ChallengeInfo) -> bool {
    c.kind is Http01
}

/// The first index at or after `from` whose challenge is HTTP-01, or `-1`.
pub open spec fn first_http01_from(cs: Seq<ChallengeInfo>, from: int) -> int
    decreases cs.len() - from when 0 <= from <= cs.len()
{
    if from >= cs.len() {
        -1
    } else if is_http01(cs[from]) {
        from
    } else {
        first_http01_from(cs, from + 1)
    }
}

/// The index of the first HTTP-01 challenge, or `-1` if there is none.
pub open spec fn first_http01(cs: Seq<ChallengeInfo>) -> int {
    first_http01_from(cs, 0)
}

pub proof fn lemma_first_http01_bounds(cs: Seq<ChallengeInfo>, from: int)
    requires
        0 <= from <= cs.len(),
    ensures
        first_http01_from(cs, from) == -1 || from <= first_http01_from(cs, from) < cs.len(),
        first_http01_from(cs, from) >= 0 ==> is_http01(cs[first_http01_from(cs, from)]),
    decreases cs.len() - from,
{
    if from < cs.len() && !is_http01(cs[from]) {
        lemma_first_http01_bounds(cs, from + 1);
    }
}

/// The order's coordination step accepts an authorization that is Pending
/// (skipped, no record) or Valid with an HTTP-01 candidate (processed); any
/// other authorization aborts coordination.
pub open spec fn authz_admissible(a: HostAuthorization) -> bool {
    ||| a.status is Pending
    ||| (a.status is Valid && first_http01(a.challenges@) >= 0)
}

pub open spec fn all_admissible(s: Seq<HostAuthorization>) -> bool {
    forall|i: int| 0 <= i < s.len() ==> authz_admissible(#[trigger] s[i])
}

/// The record derived from a Valid authorization: its host, and the token,
/// URL and proof of its first HTTP-01 challenge.
pub open spec fn record_of(a: HostAuthorization) -> RecordModel {
    let c = a.challenges@[first_http01(a.challenges@)];
    RecordModel { host: a.host@, url: c.url@, token: c.token@, proof: c.proof@ }
}

/// The records derived from the order's authorizations, in order: one per
/// Valid authorization, none for a Pending one.
pub open spec fn derived_records(s: Seq<HostAuthorization>) -> Seq<RecordModel>
    decreases s.len(),
{
    if s.len() == 0 {
        Seq::empty()
    } else {
        let rest = derived_records(s.drop_last());
        if s.last().status is Valid {
            rest.push(record_of(s.last()))
        } else {
            rest
        }
    }
}

/// The index of the first HTTP-01 challenge in `challenges`, if any.
pub fn select_http01(challenges: &Vec<ChallengeInfo>) -> (r: Option<usize>)
    ensures
        match r {
            Some(j) => first_http01(challenges@) == j,
            None => first_http01(challenges@) == -1,
        },
{
    let n = challenges.len();
    let mut i: usize = 0;
    while i < n
        invariant
            i <= n,
            n == challenges@.len(),
            first_http01(challenges@) == first_http01_from(challenges@, i as int),
        decreases n - i,
    {
        let hit = match challenges[i].kind {
            ChallengeKind::Http01 => true,
            _ => false,
        };
        if hit {
            return Some(i);
        }
        i = i + 1;
    }
    None
}

/// Derives the challenge records of an order from its authorizations.
///
/// A Pending authorization is skipped and yields no record; a Valid one
/// yields the record of its first HTTP-01 challenge. Coordination fails
/// with `Authorization` exactly when some authorization has any other
/// status, or is Valid without an HTTP-01 candidate.
///
/// Note that this branch is the reverse of the conventional ACME flow, in
/// which a freshly created order carries Pending authorizations that need
/// their challenges published, while a Valid one needs nothing — so a
/// first-time order derives no records at all. The behavior is kept as the
/// deployed pipeline has it, pending confirmation against operational
/// logs.
pub fn derive_challenges(authzs: &Vec<HostAuthorization>) -> (r: Result<
    Vec<ChallengeRecord>,
    RunError,
>)
    ensures
        r is Ok <==> all_admissible(authzs@),
        r matches Ok(v) ==> v.deep_view() == derived_records(authzs@),
        r matches Err(e) ==> e == RunError::Authorization,
{
    let n = authzs.len();
    let mut out: Vec<ChallengeRecord> = Vec::new();
    let mut i: usize = 0;
    assert(out.deep_view() =~= derived_records(authzs@.take(0)));
    while i < n
        invariant
            i <= n,
            n == authzs@.len(),
            out.deep_view() == derived_records(authzs@.take(i as int)),
            forall|k: int| 0 <= k < i ==> authz_admissible(#[trigger] authzs@[k]),
        decreases n - i,
    {
        proof {
            assert(authzs@.take(i + 1).drop_last() =~= authzs@.take(i as int));
            assert(authzs@.take(i + 1).last() == authzs@[i as int]);
        }
        let a = &authzs[i];
        match a.status {
            AuthzStatus::Pending => {
                proof {
                    assert(out.deep_view() =~= derived_records(authzs@.take(i + 1)));
                }
            },
            AuthzStatus::Valid => {
                match select_http01(&a.challenges) {
                    Some(j) => {
                        proof {
                            lemma_first_http01_bounds(a.challenges@, 0);
                        }
                        let c = &a.challenges[j];
                        out.push(ChallengeRecord {
                            host: a.host.clone(),
                            url: c.url.clone(),
                            token: c.token.clone(),
                            proof: c.proof.clone(),
                        });
                        proof {
                            assert(out.deep_view() =~= derived_records(authzs@.take(i + 1)));
                        }
                    },
                    None => {
                        assert(!authz_admissible(authzs@[i as int]));
                        return Err(RunError::Authorization);
                    },
                }
            },
            _ => {
                assert(!authz_admissible(authzs@[i as int]));
                return Err(RunError::Authorization);
            },
        }
        i = i + 1;
    }
    proof {
        assert(authzs@.take(n as int) =~= authzs@);
    }
    Ok(out)
}

} // verus!
