//! The over-length capacity scan.
//!
//! Starting one byte past the structural path capacity, the probe binds
//! with a strictly increasing extra length, one byte at a time, until the
//! kernel rejects the attempt with the invalid-argument code, an anomaly
//! appears, or an upper bound of [`SCAN_LIMIT`] extra bytes is reached.
//! The scan is a state machine: the caller performs one bind per step and
//! feeds the classified outcome back in; the machine decides the next
//! length to try or the final report.

use vstd::prelude::*;

verus! {

/// Upper bound on the number of extra bytes the scan will try.
pub const SCAN_LIMIT: usize = 100;

/// Outcome of removing the filesystem socket node after a bind that
/// reported success.
#[derive(Clone, Copy, Debug, PartialEq, Eq, Structural)]
pub enum UnlinkOutcome {
    /// The node existed and was removed.
    Removed,
    /// No node was there to remove: the kernel reported success without
    /// creating it.
    Missing,
    /// Removing the node failed for another reason.
    Failed,
}

/// Raw outcome of one bind attempt, as the syscall bridge reports it.
#[derive(Clone, Copy, Debug, PartialEq, Eq, Structural)]
pub enum BindOutcome {
    /// The bind call succeeded; `unlink` is what became of the node it
    /// should have created.
    Accepted { unlink: UnlinkOutcome },
    /// The bind call failed with the given error code.
    Rejected { errno: i32 },
}

/// An outcome that matches neither plain acceptance nor the one predicted
/// rejection code; it is surfaced with its cause, never folded into the
/// rejected case.
#[derive(Clone, Copy, Debug, PartialEq, Eq, Structural)]
pub enum AnomalyKind {
    /// The bind was rejected with an error code other than the
    /// invalid-argument code.
    UnexpectedErrno,
    /// The bind reported success but the filesystem node was not created.
    NodeNotCreated,
    /// The bind reported success but the node could not be removed.
    UnlinkFailed,
}

/// One bind attempt, classified.
#[derive(Clone, Copy, Debug, PartialEq, Eq, Structural)]
pub enum AttemptClass {
    /// The kernel accepted the length and created the node.
    Accepted,
    /// The kernel rejected the length with the invalid-argument code: the
    /// expected signal for an unsupported length.
    RejectedInvalid,
    /// Anything else.
    Anomalous { kind: AnomalyKind },
}

/// Classification of a raw bind outcome against the platform's
/// invalid-argument code.
pub open spec fn attempt_class(outcome: BindOutcome, invalid_code: i32) -> AttemptClass {
    match outcome {
        BindOutcome::Accepted { unlink } => match unlink {
            UnlinkOutcome::Removed => AttemptClass::Accepted,
            UnlinkOutcome::Missing => AttemptClass::Anomalous { kind: AnomalyKind::NodeNotCreated },
            UnlinkOutcome::Failed => AttemptClass::Anomalous { kind: AnomalyKind::UnlinkFailed },
        },
        BindOutcome::Rejected { errno } => if errno == invalid_code {
            AttemptClass::RejectedInvalid
        } else {
            AttemptClass::Anomalous { kind: AnomalyKind::UnexpectedErrno }
        },
    }
}

/// Classifies one bind attempt.  `invalid_code` is the platform's
/// invalid-argument error code, the single code predicted as the
/// unsupported signal.
pub fn classify_attempt(outcome: &BindOutcome, invalid_code: i32) -> (r: AttemptClass)
    ensures
        r == attempt_class(*outcome, invalid_code),
{
    match outcome {
        BindOutcome::Accepted { unlink } => match unlink {
            UnlinkOutcome::Removed => AttemptClass::Accepted,
            UnlinkOutcome::Missing => AttemptClass::Anomalous { kind: AnomalyKind::NodeNotCreated },
            UnlinkOutcome::Failed => AttemptClass::Anomalous { kind: AnomalyKind::UnlinkFailed },
        },
        BindOutcome::Rejected { errno } => if *errno == invalid_code {
            AttemptClass::RejectedInvalid
        } else {
            AttemptClass::Anomalous { kind: AnomalyKind::UnexpectedErrno }
        },
    }
}

/// The scan's final report.
#[derive(Clone, Copy, Debug, PartialEq, Eq, Structural)]
pub enum ScanReport {
    /// Even one extra byte was rejected with the invalid-argument code.
    NoneAccepted,
    /// The attempt that decides whether the scan applies at all was
    /// anomalous; no accepted length is known.
    InitialAnomaly { kind: AnomalyKind },
    /// `extra` extra bytes were accepted and `extra + 1` was rejected with
    /// the invalid-argument code.
    Largest { extra: usize },
    /// `extra` extra bytes were accepted, then an anomaly ended the scan.
    LargestWithAnomaly { extra: usize, kind: AnomalyKind },
    /// Every length up to the scan limit was accepted.
    ReachedLimit,
}

/// The scan's state: before the deciding first attempt, scanning with the
/// next extra length to try, or finished with a report.
#[derive(Clone, Copy, Debug, PartialEq, Eq, Structural)]
pub enum ScanState {
    Initial,
    Scanning { next: usize },
    Finished { report: ScanReport },
}

/// Structural bound on a scan state: a scanning state always holds a next
/// length between one byte and the scan limit.
pub open spec fn scan_state_wf(s: ScanState) -> bool {
    match s {
        ScanState::Scanning { next } => 1 <= next <= SCAN_LIMIT,
        _ => true,
    }
}

/// The extra length the scan wants tried next, or nothing once finished.
pub open spec fn spec_scan_request(s: ScanState) -> Option<usize> {
    match s {
        ScanState::Initial => Some(1usize),
        ScanState::Scanning { next } => Some(next),
        ScanState::Finished { report } => None,
    }
}

/// One transition of the scan: the classified outcome of the attempt the
/// state requested.
pub open spec fn spec_scan_step(s: ScanState, c: AttemptClass) -> ScanState {
    match s {
        ScanState::Initial => match c {
            AttemptClass::Accepted => ScanState::Scanning { next: 1 },
            AttemptClass::RejectedInvalid => ScanState::Finished { report: ScanReport::NoneAccepted },
            AttemptClass::Anomalous { kind } => ScanState::Finished {
                report: ScanReport::InitialAnomaly { kind },
            },
        },
        ScanState::Scanning { next } => match c {
            AttemptClass::Accepted => if next >= SCAN_LIMIT {
                ScanState::Finished { report: ScanReport::ReachedLimit }
            } else {
                ScanState::Scanning { next: (next + 1) as usize }
            },
            AttemptClass::RejectedInvalid => ScanState::Finished {
                report: ScanReport::Largest { extra: (next - 1) as usize },
            },
            AttemptClass::Anomalous { kind } => ScanState::Finished {
                report: ScanReport::LargestWithAnomaly { extra: (next - 1) as usize, kind },
            },
        },
        ScanState::Finished { report } => ScanState::Finished { report },
    }
}

/// The extra length to try next, or `None` once the scan is finished.
pub fn scan_request(s: &ScanState) -> (r: Option<usize>)
    ensures
        r == spec_scan_request(*s),
{
    match s {
        ScanState::Initial => Some(1),
        ScanState::Scanning { next } => Some(*next),
        ScanState::Finished { report } => None,
    }
}

/// Advances the scan by the classified outcome of the requested attempt.
pub fn scan_step(s: ScanState, c: AttemptClass) -> (r: ScanState)
    requires
        scan_state_wf(s),
    ensures
        r == spec_scan_step(s, c),
        scan_state_wf(r),
{
    match s {
        ScanState::Initial => match c {
            AttemptClass::Accepted => ScanState::Scanning { next: 1 },
            AttemptClass::RejectedInvalid => ScanState::Finished { report: ScanReport::NoneAccepted },
            AttemptClass::Anomalous { kind } => ScanState::Finished {
                report: ScanReport::InitialAnomaly { kind },
            },
        },
        ScanState::Scanning { next } => match c {
            AttemptClass::Accepted => if next >= SCAN_LIMIT {
                ScanState::Finished { report: ScanReport::ReachedLimit }
            } else {
                ScanState::Scanning { next: next + 1 }
            },
            AttemptClass::RejectedInvalid => ScanState::Finished {
                report: ScanReport::Largest { extra: next - 1 },
            },
            AttemptClass::Anomalous { kind } => ScanState::Finished {
                report: ScanReport::LargestWithAnomaly { extra: next - 1, kind },
            },
        },
        ScanState::Finished { report } => ScanState::Finished { report },
    }
}

/// The deterministic fill byte for a scanned extra length: a lower-case
/// letter that cycles with the length, so that neighbouring attempts leave
/// distinguishable buffers.  Never zero, as the address builder requires.
pub fn scan_fill(extra: usize) -> (fill: u8)
    ensures
        fill == 97 + (extra % 10),
        fill != 0,
{
    97 + (extra % 10) as u8
}

/// The state after feeding a whole sequence of classified attempts to the
/// scan, starting from the initial state.
pub open spec fn run_scan(classes: Seq<AttemptClass>) -> ScanState
    decreases classes.len(),
{
    if classes.len() == 0 {
        ScanState::Initial
    } else {
        spec_scan_step(run_scan(classes.drop_last()), classes.last())
    }
}

/// Shape of a live scan: while no proper prefix of the attempt sequence
/// has finished the scan, the state after `k` attempts is scanning with
/// `k` as the next length, every attempt so far was accepted, and no more
/// than the scan limit of attempts have happened.
proof fn lemma_live_scan_prefix(classes: Seq<AttemptClass>, k: int)
    requires
        0 <= k < classes.len(),
        forall|j: int| 0 <= j < classes.len() ==> !(run_scan(#[trigger] classes.take(j)) is Finished),
    ensures
        k == 0 ==> run_scan(classes.take(k)) == ScanState::Initial,
        k >= 1 ==> run_scan(classes.take(k)) == (ScanState::Scanning { next: k as usize }),
        k >= 1 ==> forall|i: int| 0 <= i < k ==> classes[i] == AttemptClass::Accepted,
        k <= SCAN_LIMIT,
    decreases k,
{
    if k == 0 {
        assert(classes.take(0) =~= Seq::<AttemptClass>::empty());
    } else {
        lemma_live_scan_prefix(classes, k - 1);
        let prev = classes.take(k - 1);
        let cur = classes.take(k);
        assert(cur.drop_last() =~= prev);
        assert(cur.last() == classes[k - 1]);
        assert(run_scan(cur) == spec_scan_step(run_scan(prev), classes[k - 1]));
        // Any outcome but acceptance would have finished the scan at the
        // prefix of length k, and acceptance at the scan limit would too.
        assert(!(run_scan(cur) is Finished));
    }
}

/// Law: the capacity scan is monotonic in what it reports.  It probes
/// strictly increasing extra lengths and stops at the first rejection, so
/// whenever it reports `extra` as the largest accepted extension, every
/// attempt before the last — the deciding first attempt and the scanned
/// lengths one through `extra` — was accepted, and the one attempt beyond,
/// at `extra + 1` extra bytes, was rejected with the invalid-argument
/// code.  No rejection is ever followed by another attempt, so under the
/// platform invariant that every length above a rejected one is also
/// rejected, the report is exactly the capacity past the structural
/// maximum.
pub proof fn lemma_scan_stops_at_first_rejection(classes: Seq<AttemptClass>, extra: usize)
    requires
        forall|j: int| 0 <= j < classes.len() ==> !(run_scan(#[trigger] classes.take(j)) is Finished),
        run_scan(classes) == (ScanState::Finished { report: ScanReport::Largest { extra } }),
    ensures
        classes.len() == extra + 2,
        forall|i: int| 0 <= i < classes.len() - 1 ==> classes[i] == AttemptClass::Accepted,
        classes.last() == AttemptClass::RejectedInvalid,
{
    let n = classes.len() as int;
    assert(n >= 1) by {
        if n == 0 {
            assert(run_scan(classes) == ScanState::Initial);
        }
    }
    lemma_live_scan_prefix(classes, n - 1);
    assert(classes.drop_last() =~= classes.take(n - 1));
    assert(run_scan(classes) == spec_scan_step(run_scan(classes.take(n - 1)), classes.last()));
    if n == 1 {
        assert(run_scan(classes.take(0)) == ScanState::Initial);
    }
}

/// Law, the complementary cases: a scan that reports that nothing was
/// accepted consists of exactly one attempt, rejected with the
/// invalid-argument code; a scan that reaches the limit accepted every one
/// of its `SCAN_LIMIT + 1` attempts.
pub proof fn lemma_scan_boundary_reports(classes: Seq<AttemptClass>)
    requires
        forall|j: int| 0 <= j < classes.len() ==> !(run_scan(#[trigger] classes.take(j)) is Finished),
    ensures
        run_scan(classes) == (ScanState::Finished { report: ScanReport::NoneAccepted })
            ==> classes =~= seq![AttemptClass::RejectedInvalid],
        run_scan(classes) == (ScanState::Finished { report: ScanReport::ReachedLimit })
            ==> classes.len() == SCAN_LIMIT + 1
                && (forall|i: int| 0 <= i < classes.len() ==> classes[i] == AttemptClass::Accepted),
{
    let n = classes.len() as int;
    if n >= 1 {
        lemma_live_scan_prefix(classes, n - 1);
        assert(classes.drop_last() =~= classes.take(n - 1));
        assert(run_scan(classes) == spec_scan_step(run_scan(classes.take(n - 1)), classes.last()));
        if run_scan(classes) == (ScanState::Finished { report: ScanReport::NoneAccepted }) {
            assert(n == 1) by {
                if n > 1 {
                    assert(run_scan(classes.take(n - 1)) is Scanning);
                }
            }
            assert(classes.take(0) =~= Seq::<AttemptClass>::empty());
            assert(classes =~= seq![AttemptClass::RejectedInvalid]);
        }
    }
}

} // verus!
