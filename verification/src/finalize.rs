use vstd::prelude::*;
use vstd::string::*;
use crate::errors::RunError;
use crate::records::{CertModel, HostCertificate};

verus! {

#[verifier::external_type_specification]
#[verifier::external_body]
pub struct ExKeyPair(rcgen::KeyPair);

#[verifier::external_type_specification]
#[verifier::external_body]
pub struct ExCertificateParams(rcgen::CertificateParams);

#[verifier::external_type_specification]
#[verifier::external_body]
pub struct ExRcgenError(rcgen::Error);

/// Relies on rcgen::KeyPair::generate: a fresh, randomly generated key
/// pair, so nothing is promised of the result.
#[verifier::external_body]
fn generate_key_pair() -> Result<rcgen::KeyPair, rcgen::Error> {
    rcgen::KeyPair::generate()
}

/// Relies on rcgen::KeyPair::serialize_pem: the key pair in PKCS#8 PEM
/// form. The encoding always emits at least its BEGIN marker line, so the
/// result is never empty.
#[verifier::external_body]
fn key_pair_pem(kp: &rcgen::KeyPair) -> (r: String)
    ensures
        r@.len() > 0,
{
    kp.serialize_pem()
}

/// Relies on rcgen::CertificateParams::new: certificate parameters whose
/// subject alternative names are the given hosts.
#[verifier::external_body]
fn new_cert_params(hosts: &Vec<String>) -> Result<rcgen::CertificateParams, rcgen::Error> {
    rcgen::CertificateParams::new(hosts.clone())
}

/// Relies on rcgen::DistinguishedName::new: resets the parameters'
/// distinguished name to an empty one, so the request names its subjects
/// through subject alternative names alone.
#[verifier::external_body]
fn clear_distinguished_name(params: &mut rcgen::CertificateParams) {
    params.distinguished_name = rcgen::DistinguishedName::new();
}

/// Relies on rcgen::CertificateParams::serialize_request: a certificate
/// signing request for the parameters, signed with the key pair, returned
/// as its DER bytes. The signature is salted, so nothing is promised of
/// the bytes.
#[verifier::external_body]
fn serialize_csr_der(params: &rcgen::CertificateParams, kp: &rcgen::KeyPair) -> Result<
    Vec<u8>,
    rcgen::Error,
> {
    match params.serialize_request(kp) {
        Ok(csr) => Ok(csr.der().as_ref().to_vec()),
        Err(e) => Err(e),
    }
}

/// The material finalization submits and persists: the CSR's DER bytes for
/// the authority, and the private key's PEM text written beside every
/// host's certificate.
pub struct FinalizeMaterial {
    pub csr_der: Vec<u8>,
    pub key_pem: String,
}

/// Generates a fresh key pair and a certificate signing request naming
/// exactly `hosts` as subject alternative names. Fails with `Protocol`
/// when the crypto backend refuses; no partial material is returned.
pub fn prepare_finalization(hosts: &Vec<String>) -> (r: Result<FinalizeMaterial, RunError>)
    ensures
        r matches Ok(m) ==> m.key_pem@.len() > 0,
        r matches Err(e) ==> e == RunError::Protocol,
{
    let kp = match generate_key_pair() {
        Ok(kp) => kp,
        Err(_) => {
            return Err(RunError::Protocol);
        },
    };
    let mut params = match new_cert_params(hosts) {
        Ok(p) => p,
        Err(_) => {
            return Err(RunError::Protocol);
        },
    };
    clear_distinguished_name(&mut params);
    let csr_der = match serialize_csr_der(&params, &kp) {
        Ok(d) => d,
        Err(_) => {
            return Err(RunError::Protocol);
        },
    };
    let key_pem = key_pair_pem(&kp);
    Ok(FinalizeMaterial { csr_der, key_pem })
}

/// The per-host certificate records of one finalized order: one per host,
/// each holding the one shared chain and the one shared key.
pub open spec fn cert_outputs_model(
    hosts: Seq<Seq<char>>,
    chain: Seq<char>,
    key: Seq<char>,
    expires_at: int,
) -> Seq<CertModel> {
    Seq::new(hosts.len(), |i: int| CertModel { host: hosts[i], cert: chain, key, expires_at })
}

/// Builds the per-host certificate records written after a successful
/// download: every host of the order receives a copy of the same chain and
/// the same private key.
pub fn certificate_outputs(hosts: &Vec<String>, chain: &str, key_pem: &str, expires_at: i64) -> (r:
    Vec<HostCertificate>)
    ensures
        r.deep_view() == cert_outputs_model(
            hosts.deep_view(),
            chain@,
            key_pem@,
            expires_at as int,
        ),
{
    let n = hosts.len();
    let mut out: Vec<HostCertificate> = Vec::new();
    let mut i: usize = 0;
    while i < n
        invariant
            i <= n,
            n == hosts@.len(),
            out@.len() == i,
            forall|k: int|
                0 <= k < i ==> out.deep_view()[k] == (CertModel {
                    host: hosts.deep_view()[k],
                    cert: chain@,
                    key: key_pem@,
                    expires_at: expires_at as int,
                }),
        decreases n - i,
    {
        let ghost pre = out.deep_view();
        out.push(
            HostCertificate {
                host: hosts[i].clone(),
                cert: chain.to_owned(),
                key: key_pem.to_owned(),
                expires_at,
            },
        );
        proof {
            assert(out@[i as int].deep_view() == (CertModel {
                host: hosts.deep_view()[i as int],
                cert: chain@,
                key: key_pem@,
                expires_at: expires_at as int,
            }));
            assert(forall|k: int| 0 <= k < i ==> #[trigger] out.deep_view()[k] == pre[k]);
        }
        i = i + 1;
    }
    proof {
        assert(out.deep_view() =~= cert_outputs_model(
            hosts.deep_view(),
            chain@,
            key_pem@,
            expires_at as int,
        ));
    }
    out
}

/// Certificate batch sharing: any two hosts of one finalized order hold
/// byte-identical certificate chains and byte-identical private keys.
pub proof fn lemma_batch_shares_material(
    hosts: Seq<Seq<char>>,
    chain: Seq<char>,
    key: Seq<char>,
    expires_at: int,
)
    ensures
        forall|i: int, j: int|
            #![trigger cert_outputs_model(hosts, chain, key, expires_at)[i],
                cert_outputs_model(hosts, chain, key, expires_at)[j]]
            0 <= i < hosts.len() && 0 <= j < hosts.len() ==> {
                let outs = cert_outputs_model(hosts, chain, key, expires_at);
                outs[i].cert == outs[j].cert && outs[i].key == outs[j].key
            },
{
}

} // verus!
