//! Classification of the descriptor-passing probes.
//!
//! Each probe sends file descriptors as ancillary data over a Unix socket
//! pair, observes what the receiving side gets, and classifies the
//! observation.  The sends and receives happen outside this library; the
//! classifiers here take the observation as plain values — counts, numeric
//! identity, whether an operation on a received descriptor still succeeds —
//! and decide the verdict.  Partial observations are reported as `Maybe`,
//! never forced into yes or no.

use vstd::prelude::*;
use crate::verdict::Verdict;

verus! {

/// Observation of the descriptor-lifetime probe: the sender's reference
/// was closed right after the send, before any receive, and then one
/// receive was attempted on a nonblocking socket.
#[derive(Clone, Copy, Debug, PartialEq, Eq, Structural)]
pub enum LifetimeObservation {
    /// Sending the descriptor failed in the first place.
    SendFailed,
    /// One descriptor arrived; `usable` is whether an operation on it
    /// still succeeded.
    ReceivedOne { usable: bool },
    /// The payload arrived but no descriptor came with it.
    ReceivedNone,
    /// More descriptors than were sent arrived.
    ReceivedMany { count: usize },
    /// Nothing arrived at all: the datagram was dropped.
    DatagramDropped,
    /// The receive failed for an unexpected reason.
    RecvFailed,
}

/// Verdict of the lifetime probe: the question is whether the sender must
/// keep its descriptor open until the receive.  A received descriptor that
/// still works means the kernel's own duplicate kept the resource alive,
/// so the answer is no; a dead descriptor, a missing descriptor, or a
/// dropped datagram all mean yes.
pub open spec fn lifetime_verdict(o: LifetimeObservation) -> Verdict {
    match o {
        LifetimeObservation::SendFailed => Verdict::NotApplicable,
        LifetimeObservation::ReceivedOne { usable } => if usable {
            Verdict::Unsupported
        } else {
            Verdict::Supported
        },
        LifetimeObservation::ReceivedNone => Verdict::Supported,
        LifetimeObservation::ReceivedMany { count } => Verdict::NotApplicable,
        LifetimeObservation::DatagramDropped => Verdict::Supported,
        LifetimeObservation::RecvFailed => Verdict::NotApplicable,
    }
}

/// Classifies the descriptor-lifetime probe.
pub fn classify_fd_lifetime(o: &LifetimeObservation) -> (v: Verdict)
    ensures
        v == lifetime_verdict(*o),
{
    match o {
        LifetimeObservation::SendFailed => Verdict::NotApplicable,
        LifetimeObservation::ReceivedOne { usable } => if *usable {
            Verdict::Unsupported
        } else {
            Verdict::Supported
        },
        LifetimeObservation::ReceivedNone => Verdict::Supported,
        LifetimeObservation::ReceivedMany { count } => Verdict::NotApplicable,
        LifetimeObservation::DatagramDropped => Verdict::Supported,
        LifetimeObservation::RecvFailed => Verdict::NotApplicable,
    }
}

/// Observation of the duplication-identity probe: a socket's own
/// descriptor was sent over itself, received on a nonblocking peer, and
/// compared by number; then the original was closed and an operation on
/// the received descriptor tried.
#[derive(Clone, Copy, Debug, PartialEq, Eq, Structural)]
pub enum IdentityObservation {
    /// Sending the descriptor failed in the first place.
    SendFailed,
    /// One descriptor arrived.  `same_number` is whether its number equals
    /// the sent one; `usable` is whether an operation on it succeeded
    /// afterwards — for a same-numbered descriptor, after the original was
    /// closed.
    ReceivedOne { same_number: bool, usable: bool },
    /// The payload arrived but no descriptor came with it.
    ReceivedNone,
    /// More descriptors than were sent arrived.
    ReceivedMany { count: usize },
    /// Nothing arrived at all: the datagram was dropped.
    DatagramDropped,
    /// The receive failed for an unexpected reason.
    RecvFailed,
}

/// Verdict of the identity probe: the question is whether the descriptor
/// might arrive un-duplicated.  A same-numbered descriptor that dies with
/// the original is the affirmative answer; one that outlives it, and a
/// differently-numbered descriptor that fails, are borderline; a
/// differently-numbered working descriptor is a clean duplicate and the
/// negative answer.
pub open spec fn identity_verdict(o: IdentityObservation) -> Verdict {
    match o {
        IdentityObservation::SendFailed => Verdict::NotApplicable,
        IdentityObservation::ReceivedOne { same_number, usable } => if same_number {
            if usable {
                Verdict::Maybe
            } else {
                Verdict::Supported
            }
        } else {
            if usable {
                Verdict::Unsupported
            } else {
                Verdict::Maybe
            }
        },
        IdentityObservation::ReceivedNone => Verdict::Supported,
        IdentityObservation::ReceivedMany { count } => Verdict::NotApplicable,
        IdentityObservation::DatagramDropped => Verdict::Supported,
        IdentityObservation::RecvFailed => Verdict::NotApplicable,
    }
}

/// Classifies the duplication-identity probe.
pub fn classify_fd_identity(o: &IdentityObservation) -> (v: Verdict)
    ensures
        v == identity_verdict(*o),
{
    match o {
        IdentityObservation::SendFailed => Verdict::NotApplicable,
        IdentityObservation::ReceivedOne { same_number, usable } => if *same_number {
            if *usable {
                Verdict::Maybe
            } else {
                Verdict::Supported
            }
        } else {
            if *usable {
                Verdict::Unsupported
            } else {
                Verdict::Maybe
            }
        },
        IdentityObservation::ReceivedNone => Verdict::Supported,
        IdentityObservation::ReceivedMany { count } => Verdict::NotApplicable,
        IdentityObservation::DatagramDropped => Verdict::Supported,
        IdentityObservation::RecvFailed => Verdict::NotApplicable,
    }
}

/// Law: when the received descriptor carries the same number as the
/// original and the original has then been closed, both platform answers
/// are valid — the kernel may have duplicated the descriptor, keeping it
/// alive, or not.  The probe distinguishes the two by the one observable
/// that separates them, whether the received descriptor still works, and
/// reports them under different verdicts; it never assumes either answer
/// and treats neither as a bug.
pub proof fn lemma_identity_probe_distinguishes(usable: bool)
    ensures
        identity_verdict(IdentityObservation::ReceivedOne { same_number: true, usable })
            == if usable { Verdict::Maybe } else { Verdict::Supported },
        identity_verdict(IdentityObservation::ReceivedOne { same_number: true, usable: true })
            != identity_verdict(IdentityObservation::ReceivedOne { same_number: true, usable: false }),
        identity_verdict(IdentityObservation::ReceivedOne { same_number: true, usable })
            != Verdict::Buggy,
{
}

/// Observation of the same-process cloning probe: a socket's descriptor
/// sent over itself and received on the blocking peer.
#[derive(Clone, Copy, Debug, PartialEq, Eq, Structural)]
pub enum CloneObservation {
    /// Sending the descriptor failed in the first place.
    SendFailed,
    /// `count` descriptors arrived; `same_number` is whether the first
    /// carries the sent descriptor's number.
    Received { count: usize, same_number: bool },
}

/// Verdict of the same-process cloning probe: exactly one descriptor must
/// arrive; the same number back means the kernel handed out the very same
/// descriptor, a different number means it duplicated.  Any other count is
/// a bug.
pub open spec fn clone_verdict(o: CloneObservation) -> Verdict {
    match o {
        CloneObservation::SendFailed => Verdict::NotApplicable,
        CloneObservation::Received { count, same_number } => if count == 1 {
            if same_number {
                Verdict::Unsupported
            } else {
                Verdict::Supported
            }
        } else {
            Verdict::Buggy
        },
    }
}

/// Classifies the same-process cloning probe.
pub fn classify_fd_clone(o: &CloneObservation) -> (v: Verdict)
    ensures
        v == clone_verdict(*o),
{
    match o {
        CloneObservation::SendFailed => Verdict::NotApplicable,
        CloneObservation::Received { count, same_number } => if *count == 1 {
            if *same_number {
                Verdict::Unsupported
            } else {
                Verdict::Supported
            }
        } else {
            Verdict::Buggy
        },
    }
}

/// Observation of the clone-on-send probe: the descriptor was sent, the
/// sender's reference closed, a fresh unrelated descriptor allocated to
/// expose number reuse, and then the receive performed.
#[derive(Clone, Copy, Debug, PartialEq, Eq, Structural)]
pub enum CloneOnSendObservation {
    /// Sending the descriptor failed in the first place.
    SendFailed,
    /// `count` descriptors arrived.  `same_number`: the received number
    /// equals the closed original's.  `number_reused`: the fresh
    /// descriptor was allocated that very number, so a same-numbered
    /// arrival proves nothing.  `usable`: an operation on the received
    /// descriptor succeeded.
    Received { count: usize, same_number: bool, number_reused: bool, usable: bool },
}

/// Verdict of the clone-on-send probe: a working received descriptor
/// proves the kernel duplicated at send time, since the original is long
/// closed — unless the observed number was reused by the fresh
/// descriptor, in which case the observation proves nothing and is set
/// aside.
pub open spec fn clone_on_send_verdict(o: CloneOnSendObservation) -> Verdict {
    match o {
        CloneOnSendObservation::SendFailed => Verdict::NotApplicable,
        CloneOnSendObservation::Received { count, same_number, number_reused, usable } => if count
            == 1 {
            if same_number && number_reused {
                Verdict::NotApplicable
            } else if usable {
                Verdict::Supported
            } else {
                Verdict::Unsupported
            }
        } else {
            Verdict::Buggy
        },
    }
}

/// Classifies the clone-on-send probe.
pub fn classify_fd_clone_on_send(o: &CloneOnSendObservation) -> (v: Verdict)
    ensures
        v == clone_on_send_verdict(*o),
{
    match o {
        CloneOnSendObservation::SendFailed => Verdict::NotApplicable,
        CloneOnSendObservation::Received { count, same_number, number_reused, usable } => if *count
            == 1 {
            if *same_number && *number_reused {
                Verdict::NotApplicable
            } else if *usable {
                Verdict::Supported
            } else {
                Verdict::Unsupported
            }
        } else {
            Verdict::Buggy
        },
    }
}

/// Law: the clone-on-send probe guards against descriptor-number reuse.
/// When the received number equals the closed original's but that number
/// was observed reallocated to the fresh descriptor, the observation is
/// set aside as inapplicable — in particular it is never read as support,
/// however alive the received descriptor looks.
pub proof fn lemma_clone_on_send_reuse_guard(usable: bool)
    ensures
        clone_on_send_verdict(
            CloneOnSendObservation::Received {
                count: 1,
                same_number: true,
                number_reused: true,
                usable,
            },
        ) == Verdict::NotApplicable,
{
}

/// Observation of one receive in the stream-framing probe.
#[derive(Clone, Copy, Debug, PartialEq, Eq, Structural)]
pub enum FramingRecv {
    /// The receive returned `bytes` payload bytes and `fds` descriptors.
    Received { bytes: usize, fds: usize },
    /// The receive failed.
    RecvFailed,
}

/// The number of descriptors attached to each of the four sends of the
/// stream-framing probe, each send carrying a one-byte payload.
pub open spec fn framing_expected(step: int) -> int {
    if step == 0 {
        1
    } else if step == 1 {
        0
    } else if step == 2 {
        2
    } else {
        3
    }
}

/// Whether one receive of the framing probe kept its send's framing: it
/// must deliver exactly the one payload byte of that send and exactly the
/// descriptors that accompanied it, with ancillary data from neighbouring
/// sends never merged in.
pub open spec fn framing_step_ok(step: int, o: FramingRecv) -> bool {
    match o {
        FramingRecv::Received { bytes, fds } => bytes == 1 && fds == framing_expected(step),
        FramingRecv::RecvFailed => false,
    }
}

/// The descriptor count the framing probe expects at the given receive.
pub fn framing_expected_fds(step: usize) -> (r: usize)
    requires
        step < 4,
    ensures
        r == framing_expected(step as int),
{
    if step == 0 {
        1
    } else if step == 1 {
        0
    } else if step == 2 {
        2
    } else {
        3
    }
}

/// Classifies one receive of the stream-framing probe.
pub fn classify_framing_step(step: usize, o: &FramingRecv) -> (v: Verdict)
    requires
        step < 4,
    ensures
        v == (if framing_step_ok(step as int, *o) {
            Verdict::Supported
        } else {
            Verdict::Unsupported
        }),
{
    match o {
        FramingRecv::Received { bytes, fds } => {
            if *bytes == 1 && *fds == framing_expected_fds(step) {
                Verdict::Supported
            } else {
                Verdict::Unsupported
            }
        },
        FramingRecv::RecvFailed => Verdict::Unsupported,
    }
}

/// Law: given sends of one, zero, two and three descriptors, each with a
/// one-byte payload, the framing probe accepts the run exactly when its
/// four receives report descriptor counts of exactly one, zero, two and
/// three, in that order, each alongside a single payload byte — whatever
/// the payload grouping would have been allowed to be, a receive that
/// merges ancillary data of two sends cannot show these counts.
pub proof fn lemma_framing_counts(o0: FramingRecv, o1: FramingRecv, o2: FramingRecv, o3: FramingRecv)
    ensures
        (framing_step_ok(0, o0) && framing_step_ok(1, o1) && framing_step_ok(2, o2)
            && framing_step_ok(3, o3)) <==> {
            &&& o0 == (FramingRecv::Received { bytes: 1usize, fds: 1usize })
            &&& o1 == (FramingRecv::Received { bytes: 1usize, fds: 0usize })
            &&& o2 == (FramingRecv::Received { bytes: 1usize, fds: 2usize })
            &&& o3 == (FramingRecv::Received { bytes: 1usize, fds: 3usize })
        },
{
}

/// Outcome of one receive call on a sequential-packet socket, probing
/// zero-length packets.
#[derive(Clone, Copy, Debug, PartialEq, Eq, Structural)]
pub enum PacketRecv {
    /// The call returned an empty message.
    Empty,
    /// The call reported that it would block.
    WouldBlock,
    /// Anything else: data, or an unexpected error.
    Unexpected,
}

/// Finding of the first sub-probe: what a zero-length receive does on an
/// empty queue.
#[derive(Clone, Copy, Debug, PartialEq, Eq, Structural)]
pub enum EmptyQueueFinding {
    /// The receive succeeds at once even with nothing queued.
    ReturnsImmediately,
    /// The receive blocks until something arrives.
    Blocks,
    /// The receive did something else entirely.
    Strange,
}

/// Finding of the second sub-probe: what becomes of an explicitly sent
/// zero-length packet.
#[derive(Clone, Copy, Debug, PartialEq, Eq, Structural)]
pub enum ZeroDeliveryFinding {
    /// The packet arrived as a receivable zero-length message.
    Delivered,
    /// The packet was silently dropped: the queue stayed empty.
    Dropped,
    /// The receive did something else entirely.
    Strange,
}

/// Classification of the empty-queue sub-probe.
pub open spec fn empty_queue_finding(o: PacketRecv) -> EmptyQueueFinding {
    match o {
        PacketRecv::Empty => EmptyQueueFinding::ReturnsImmediately,
        PacketRecv::WouldBlock => EmptyQueueFinding::Blocks,
        PacketRecv::Unexpected => EmptyQueueFinding::Strange,
    }
}

/// Classification of the zero-length-delivery sub-probe.
pub open spec fn zero_delivery_finding(o: PacketRecv) -> ZeroDeliveryFinding {
    match o {
        PacketRecv::Empty => ZeroDeliveryFinding::Delivered,
        PacketRecv::WouldBlock => ZeroDeliveryFinding::Dropped,
        PacketRecv::Unexpected => ZeroDeliveryFinding::Strange,
    }
}

/// Classifies a zero-length receive attempted on a queue with nothing
/// sent.
pub fn classify_empty_queue(o: &PacketRecv) -> (f: EmptyQueueFinding)
    ensures
        f == empty_queue_finding(*o),
{
    match o {
        PacketRecv::Empty => EmptyQueueFinding::ReturnsImmediately,
        PacketRecv::WouldBlock => EmptyQueueFinding::Blocks,
        PacketRecv::Unexpected => EmptyQueueFinding::Strange,
    }
}

/// Classifies the receive attempted after an explicit zero-length send.
pub fn classify_zero_delivery(o: &PacketRecv) -> (f: ZeroDeliveryFinding)
    ensures
        f == zero_delivery_finding(*o),
{
    match o {
        PacketRecv::Empty => ZeroDeliveryFinding::Delivered,
        PacketRecv::WouldBlock => ZeroDeliveryFinding::Dropped,
        PacketRecv::Unexpected => ZeroDeliveryFinding::Strange,
    }
}

/// Law: the two zero-length sub-probes are independent.  Each finding is a
/// function of its own observation alone, and every combination of the
/// definite answers is realizable — a system may deliver zero-length
/// packets while a zero-length receive blocks on an empty queue, or the
/// other way round — so both are probed and reported separately, never
/// inferred from one another.
pub proof fn lemma_seqpacket_findings_independent()
    ensures
        empty_queue_finding(PacketRecv::Empty) == EmptyQueueFinding::ReturnsImmediately,
        empty_queue_finding(PacketRecv::WouldBlock) == EmptyQueueFinding::Blocks,
        zero_delivery_finding(PacketRecv::Empty) == ZeroDeliveryFinding::Delivered,
        zero_delivery_finding(PacketRecv::WouldBlock) == ZeroDeliveryFinding::Dropped,
{
}

} // verus!
