use vstd::prelude::*;
use crate::strutil::{concat2, concat3};

verus! {

/// The authority's staging directory URL, the default for new deployments;
/// production use overrides it through the service configuration.
pub fn staging_directory_url() -> (r: &'static str)
    ensures
        r@ == "https://acme-staging-v02.api.letsencrypt.org/directory"@,
{
    "https://acme-staging-v02.api.letsencrypt.org/directory"
}

/// Root of the per-host challenge record directories.
pub fn challenges_path() -> (r: &'static str)
    ensures
        r@ == "./data/challenges"@,
{
    "./data/challenges"
}

/// Root of the per-host certificate directories.
pub fn certificates_path() -> (r: &'static str)
    ensures
        r@ == "./data/certificates"@,
{
    "./data/certificates"
}

/// Directory of the account credential file.
pub fn account_path() -> (r: &'static str)
    ensures
        r@ == "./data/account"@,
{
    "./data/account"
}

/// Directory of the best-effort order reference file.
pub fn orders_path() -> (r: &'static str)
    ensures
        r@ == "./data/orders"@,
{
    "./data/orders"
}

/// The account credential file.
pub fn credentials_file_path() -> (r: String)
    ensures
        r@ == "./data/account/credentials.json"@,
{
    proof {
        reveal_strlit("./data/account/credentials.json");
        reveal_strlit("./data/account");
        reveal_strlit("/credentials.json");
    }
    let r = concat2(account_path(), "/credentials.json");
    proof {
        assert(r@ =~= "./data/account/credentials.json"@);
    }
    r
}

/// The order reference file, overwritten on each run.
pub fn orders_meta_path() -> (r: String)
    ensures
        r@ == "./data/orders/meta.txt"@,
{
    proof {
        reveal_strlit("./data/orders/meta.txt");
        reveal_strlit("./data/orders");
        reveal_strlit("/meta.txt");
    }
    let r = concat2(orders_path(), "/meta.txt");
    proof {
        assert(r@ =~= "./data/orders/meta.txt"@);
    }
    r
}

/// The challenge record directory for `host`.
pub fn challenge_dir(host: &str) -> (r: String)
    ensures
        r@ == "./data/challenges/"@ + host@,
{
    concat2("./data/challenges/", host)
}

/// The `meta.csv` challenge record file for `host`.
pub fn challenge_meta_path(host: &str) -> (r: String)
    ensures
        r@ == "./data/challenges/"@ + host@ + "/meta.csv"@,
{
    concat3("./data/challenges/", host, "/meta.csv")
}

/// The certificate directory for `host`.
pub fn certificate_dir(host: &str) -> (r: String)
    ensures
        r@ == "./data/certificates/"@ + host@,
{
    concat2("./data/certificates/", host)
}

/// The certificate chain file for `host`.
pub fn cert_pem_path(host: &str) -> (r: String)
    ensures
        r@ == "./data/certificates/"@ + host@ + "/cert.pem"@,
{
    concat3("./data/certificates/", host, "/cert.pem")
}

/// The private key file for `host`.
pub fn key_pem_path(host: &str) -> (r: String)
    ensures
        r@ == "./data/certificates/"@ + host@ + "/key.pem"@,
{
    concat3("./data/certificates/", host, "/key.pem")
}

/// The `meta.csv` paths probed for the given hosts, one per host, in order.
pub open spec fn spec_challenge_meta_paths(hosts: Seq<Seq<char>>) -> Seq<Seq<char>> {
    Seq::new(hosts.len(), |i: int| "./data/challenges/"@ + hosts[i] + "/meta.csv"@)
}

/// The challenge record file of every host, in configuration order.
pub fn challenge_meta_paths(hosts: &Vec<String>) -> (r: Vec<String>)
    ensures
        r.deep_view() == spec_challenge_meta_paths(hosts.deep_view()),
{
    let n = hosts.len();
    let mut out: Vec<String> = Vec::new();
    let mut i: usize = 0;
    while i < n
        invariant
            i <= n,
            n == hosts@.len(),
            out@.len() == i,
            forall|k: int|
                0 <= k < i ==> #[trigger] out.deep_view()[k] == "./data/challenges/"@
                    + hosts.deep_view()[k] + "/meta.csv"@,
        decreases n - i,
    {
        let ghost pre = out.deep_view();
        out.push(challenge_meta_path(hosts[i].as_str()));
        proof {
            assert(forall|k: int| 0 <= k < i ==> #[trigger] out.deep_view()[k] == pre[k]);
            assert(out.deep_view()[i as int] == "./data/challenges/"@ + hosts.deep_view()[i as int]
                + "/meta.csv"@);
        }
        i = i + 1;
    }
    proof {
        assert(out.deep_view() =~= spec_challenge_meta_paths(hosts.deep_view()));
    }
    out
}

} // verus!
