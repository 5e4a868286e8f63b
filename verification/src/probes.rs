//! Classification of the remaining probes: the accept timeout and the
//! address-family validation.

use vstd::prelude::*;
use crate::verdict::Verdict;

verus! {

/// What the background accept call reported, if it reported at all.
#[derive(Clone, Copy, Debug, PartialEq, Eq, Structural)]
pub enum AcceptOutcome {
    /// The accept failed with the would-block error: the receive timeout
    /// fired inside the call, as hoped.
    TimedOut,
    /// The accept failed with some other error.
    OtherError,
    /// The accept returned a connection that nobody made.
    Connected,
}

/// Observation of the accept-timeout probe: a receive timeout is set on a
/// listening socket, a background unit calls accept on it, and the main
/// flow waits for the unit's report under an independent bound.
#[derive(Clone, Copy, Debug, PartialEq, Eq, Structural)]
pub enum AcceptWaitObservation {
    /// Setting the receive-timeout option failed, so the probe cannot
    /// apply: the capability is absent at the option level.
    OptionRejected,
    /// The background unit reported before the external bound expired.
    Reported { outcome: AcceptOutcome },
    /// The external bound expired first: the socket option had no effect
    /// on the accept call.
    WaitExpired,
    /// The background unit went away without reporting anything.
    WorkerVanished,
}

/// Verdict of the accept-timeout probe.  Only the accept call itself
/// failing with the would-block error inside the configured window counts
/// as support; the external bound expiring first is the plain negative;
/// every other outcome — an unexpected error, a connection out of nowhere,
/// a vanished background unit — is its own bug to surface.
pub open spec fn accept_timeout_verdict(o: AcceptWaitObservation) -> Verdict {
    match o {
        AcceptWaitObservation::OptionRejected => Verdict::Unsupported,
        AcceptWaitObservation::Reported { outcome } => match outcome {
            AcceptOutcome::TimedOut => Verdict::Supported,
            AcceptOutcome::OtherError => Verdict::Buggy,
            AcceptOutcome::Connected => Verdict::Buggy,
        },
        AcceptWaitObservation::WaitExpired => Verdict::Unsupported,
        AcceptWaitObservation::WorkerVanished => Verdict::Buggy,
    }
}

/// Classifies the accept-timeout probe.
pub fn classify_accept_timeout(o: &AcceptWaitObservation) -> (v: Verdict)
    ensures
        v == accept_timeout_verdict(*o),
{
    match o {
        AcceptWaitObservation::OptionRejected => Verdict::Unsupported,
        AcceptWaitObservation::Reported { outcome } => match outcome {
            AcceptOutcome::TimedOut => Verdict::Supported,
            AcceptOutcome::OtherError => Verdict::Buggy,
            AcceptOutcome::Connected => Verdict::Buggy,
        },
        AcceptWaitObservation::WaitExpired => Verdict::Unsupported,
        AcceptWaitObservation::WorkerVanished => Verdict::Buggy,
    }
}

/// Verdict of the address-family validation probe: a descriptor of a
/// different address family is reinterpreted as a Unix-domain listener,
/// and both reading the local address and accepting must fail with the
/// invalid-input class of error.  Anything less than both rejections means
/// the mismatch went undetected somewhere.
pub open spec fn family_check_verdict(local_addr_rejected: bool, accept_rejected: bool) -> Verdict {
    if local_addr_rejected && accept_rejected {
        Verdict::Supported
    } else {
        Verdict::Buggy
    }
}

/// Classifies the address-family validation probe.  The two arguments say
/// whether reading the local address, and accepting, each failed with the
/// invalid-input class of error on the mismatched handle.
pub fn classify_family_check(local_addr_rejected: bool, accept_rejected: bool) -> (v: Verdict)
    ensures
        v == family_check_verdict(local_addr_rejected, accept_rejected),
{
    if local_addr_rejected && accept_rejected {
        Verdict::Supported
    } else {
        Verdict::Buggy
    }
}

} // verus!
