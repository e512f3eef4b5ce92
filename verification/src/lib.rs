//! Verified core of an ACME HTTP-01 certificate issuance pipeline.
//!
//! The library holds the decision logic of the pipeline: account bootstrap,
//! host exclusion, order construction, challenge derivation, backoff-governed
//! readiness polling, certificate finalization, and the plaintext challenge
//! responder. All network and file effects are described as `Action` values
//! that an unverified shell performs, feeding the results back as `Event`s.

pub mod account;
pub mod backoff;
pub mod challenge;
pub mod errors;
pub mod finalize;
pub mod lifecycle;
pub mod order;
pub mod paths;
pub mod records;
pub mod responder;
pub mod store;
pub mod strutil;
