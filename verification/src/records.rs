use vstd::prelude::*;
use crate::strutil::{concat5, find_semi, first_semi, lemma_first_semi_bounds,
    lemma_first_semi_found, substring_owned};

verus! {

/// The mathematical value of a persisted challenge record.
pub struct RecordModel {
    pub host: Seq<char>,
    pub url: Seq<char>,
    pub token: Seq<char>,
    pub proof: Seq<char>,
}

/// A persisted challenge record: the host it belongs to, the authority's
/// challenge URL, the challenge token, and the key-authorization proof that
/// the challenge responder must serve for that token.
pub struct ChallengeRecord {
    pub host: String,
    pub url: String,
    pub token: String,
    pub proof: String,
}

impl View for ChallengeRecord {
    type V = RecordModel;

    open spec fn view(&self) -> RecordModel {
        RecordModel {
            host: self.host@,
            url: self.url@,
            token: self.token@,
            proof: self.proof@,
        }
    }
}

impl DeepView for ChallengeRecord {
    type V = RecordModel;

    open spec fn deep_view(&self) -> RecordModel {
        self.view()
    }
}

/// The mathematical value of a persisted per-host certificate record.
pub struct CertModel {
    pub host: Seq<char>,
    pub cert: Seq<char>,
    pub key: Seq<char>,
    pub expires_at: int,
}

/// A per-host certificate record: the issued chain and private key, both in
/// PEM form, and an expiry timestamp. Every host of one finalized order holds
/// a copy of the same chain and the same key.
pub struct HostCertificate {
    pub host: String,
    pub cert: String,
    pub key: String,
    pub expires_at: i64,
}

impl View for HostCertificate {
    type V = CertModel;

    open spec fn view(&self) -> CertModel {
        CertModel {
            host: self.host@,
            cert: self.cert@,
            key: self.key@,
            expires_at: self.expires_at as int,
        }
    }
}

impl DeepView for HostCertificate {
    type V = CertModel;

    open spec fn deep_view(&self) -> CertModel {
        self.view()
    }
}

/// The characters of a record's `meta.csv` file:
/// `<challenge-url>;<proof>;<token>`.
pub open spec fn spec_meta_contents(r: RecordModel) -> Seq<char> {
    r.url + ";"@ + r.proof + ";"@ + r.token
}

/// Renders a challenge record as the contents of its `meta.csv` file.
pub fn challenge_meta_contents(r: &ChallengeRecord) -> (s: String)
    ensures
        s@ == spec_meta_contents(r@),
{
    concat5(r.url.as_str(), ";", r.proof.as_str(), ";", r.token.as_str())
}

/// Splits `meta.csv` contents at the first two `;` characters into
/// `(url, proof, token)`. `None` when the contents hold fewer than two `;`.
pub fn parse_challenge_meta(s: &str) -> (r: Option<(String, String, String)>)
    ensures
        match r {
            Some(parts) => {
                let i = first_semi(s@, 0);
                let j = first_semi(s@, i + 1);
                &&& i >= 0
                &&& j >= 0
                &&& parts.0@ == s@.subrange(0, i)
                &&& parts.1@ == s@.subrange(i + 1, j)
                &&& parts.2@ == s@.subrange(j + 1, s@.len() as int)
            },
            None => first_semi(s@, 0) == -1 || first_semi(s@, first_semi(s@, 0) + 1) == -1,
        },
{
    let len = s.unicode_len();
    proof {
        lemma_first_semi_bounds(s@, 0);
    }
    let i = match find_semi(s, 0) {
        Some(i) => i,
        None => {
            return None;
        },
    };
    proof {
        lemma_first_semi_bounds(s@, i + 1);
    }
    let j = match find_semi(s, i + 1) {
        Some(j) => j,
        None => {
            return None;
        },
    };
    let url = substring_owned(s, 0, i);
    let proof = substring_owned(s, i + 1, j);
    let token = substring_owned(s, j + 1, len);
    Some((url, proof, token))
}

/// Round trip: a record whose URL and proof hold no `;` parses back from its
/// `meta.csv` rendering to exactly its URL, proof and token.
pub proof fn lemma_meta_round_trip(r: RecordModel)
    requires
        forall|k: int| 0 <= k < r.url.len() ==> r.url[k] != ';',
        forall|k: int| 0 <= k < r.proof.len() ==> r.proof[k] != ';',
    ensures
        ({
            let s = spec_meta_contents(r);
            let i = first_semi(s, 0);
            let j = first_semi(s, i + 1);
            &&& i == r.url.len()
            &&& j == r.url.len() + 1 + r.proof.len()
            &&& s.subrange(0, i) == r.url
            &&& s.subrange(i + 1, j) == r.proof
            &&& s.subrange(j + 1, s.len() as int) == r.token
        }),
{
    reveal_strlit(";");
    let s = spec_meta_contents(r);
    let ul = r.url.len() as int;
    let pl = r.proof.len() as int;
    assert(s.len() == ul + 1 + pl + 1 + r.token.len());
    assert(forall|k: int| 0 <= k < ul ==> s[k] == r.url[k]);
    assert(s[ul] == ';');
    assert(forall|k: int| ul + 1 <= k < ul + 1 + pl ==> s[k] == r.proof[k - ul - 1]);
    assert(s[ul + 1 + pl] == ';');
    assert(forall|k: int|
        ul + 1 + pl + 1 <= k < s.len() ==> s[k] == r.token[k - (ul + 1 + pl + 1)]);
    lemma_first_semi_found(s, 0, ul);
    lemma_first_semi_found(s, ul + 1, ul + 1 + pl);
    assert(s.subrange(0, ul) =~= r.url);
    assert(s.subrange(ul + 1, ul + 1 + pl) =~= r.proof);
    assert(s.subrange(ul + 1 + pl + 1, s.len() as int) =~= r.token);
}

} // verus!
