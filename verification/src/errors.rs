use vstd::prelude::*;

verus! {

/// The error kinds a run can end with. Every failure is reported through the
/// run's final outcome; nothing panics and nothing propagates to the host
/// process.
#[derive(Clone, Copy, Debug, PartialEq, Eq, Structural)]
pub enum RunError {
    /// A filesystem write or read failed; fatal to the current run.
    Persistence,
    /// The certificate authority rejected a request; fatal to the current run.
    Protocol,
    /// An authorization was in an unexpected status; coordination aborts
    /// before any readiness signal is sent.
    Authorization,
}

/// How a run ended. A run always ends in exactly one of these.
#[derive(Clone, Copy, Debug, PartialEq, Eq, Structural)]
pub enum RunOutcome {
    /// Certificates were written for every host of the order.
    Issued,
    /// Every configured host already had a challenge record; the run did
    /// nothing.
    AllProvisioned,
    /// The identifier set for the order was empty: no hosts remained after
    /// exclusion. Not an operational error; the run short-circuits.
    NoHostsRemaining,
    /// The order produced no challenge records; nothing to wait for.
    NoRecords,
    /// Readiness polling exhausted its retry budget; the run stops silently.
    GaveUp,
    /// A component failed with the given error kind.
    Failed(RunError),
    /// The shell delivered an event that does not belong to the current
    /// phase; the run aborts.
    OutOfTurn,
}

} // verus!
