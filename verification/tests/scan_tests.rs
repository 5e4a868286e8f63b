//! Tests of the over-length capacity scan.

use sockprobe::scan::{
    classify_attempt, scan_fill, scan_request, scan_step, AnomalyKind, AttemptClass, BindOutcome,
    ScanReport, ScanState, UnlinkOutcome, SCAN_LIMIT,
};

fn run(outcomes: &[AttemptClass]) -> ScanState {
    let mut state = ScanState::Initial;
    for c in outcomes {
        assert!(scan_request(&state).is_some(), "scan asked to go on after finishing");
        state = scan_step(state, *c);
    }
    state
}

#[test]
fn attempt_classification_covers_every_outcome() {
    let einval = libc::EINVAL;
    assert_eq!(
        classify_attempt(&BindOutcome::Accepted { unlink: UnlinkOutcome::Removed }, einval),
        AttemptClass::Accepted
    );
    assert_eq!(
        classify_attempt(&BindOutcome::Rejected { errno: einval }, einval),
        AttemptClass::RejectedInvalid
    );
    assert_eq!(
        classify_attempt(&BindOutcome::Rejected { errno: libc::ENAMETOOLONG }, einval),
        AttemptClass::Anomalous { kind: AnomalyKind::UnexpectedErrno }
    );
    assert_eq!(
        classify_attempt(&BindOutcome::Accepted { unlink: UnlinkOutcome::Missing }, einval),
        AttemptClass::Anomalous { kind: AnomalyKind::NodeNotCreated }
    );
    assert_eq!(
        classify_attempt(&BindOutcome::Accepted { unlink: UnlinkOutcome::Failed }, einval),
        AttemptClass::Anomalous { kind: AnomalyKind::UnlinkFailed }
    );
}

#[test]
fn first_rejection_means_nothing_accepted() {
    let state = run(&[AttemptClass::RejectedInvalid]);
    assert_eq!(state, ScanState::Finished { report: ScanReport::NoneAccepted });
    assert_eq!(scan_request(&state), None);
}

#[test]
fn scan_stops_at_first_rejection() {
    // The deciding attempt and the scanned lengths one and two are
    // accepted; three extra bytes are rejected, so two is the largest.
    let state = run(&[
        AttemptClass::Accepted,
        AttemptClass::Accepted,
        AttemptClass::Accepted,
        AttemptClass::RejectedInvalid,
    ]);
    assert_eq!(state, ScanState::Finished { report: ScanReport::Largest { extra: 2 } });
}

#[test]
fn rejection_right_after_the_deciding_attempt_reports_zero() {
    let state = run(&[AttemptClass::Accepted, AttemptClass::RejectedInvalid]);
    assert_eq!(state, ScanState::Finished { report: ScanReport::Largest { extra: 0 } });
}

#[test]
fn anomaly_keeps_the_largest_accepted_length() {
    let state = run(&[
        AttemptClass::Accepted,
        AttemptClass::Accepted,
        AttemptClass::Anomalous { kind: AnomalyKind::UnexpectedErrno },
    ]);
    assert_eq!(
        state,
        ScanState::Finished {
            report: ScanReport::LargestWithAnomaly { extra: 1, kind: AnomalyKind::UnexpectedErrno }
        }
    );
}

#[test]
fn anomaly_on_the_deciding_attempt_is_its_own_report() {
    let state = run(&[AttemptClass::Anomalous { kind: AnomalyKind::NodeNotCreated }]);
    assert_eq!(
        state,
        ScanState::Finished {
            report: ScanReport::InitialAnomaly { kind: AnomalyKind::NodeNotCreated }
        }
    );
}

#[test]
fn scan_gives_up_at_the_limit() {
    let outcomes = vec![AttemptClass::Accepted; SCAN_LIMIT + 1];
    let state = run(&outcomes);
    assert_eq!(state, ScanState::Finished { report: ScanReport::ReachedLimit });
}

#[test]
fn scan_requests_strictly_increasing_lengths() {
    let mut state = ScanState::Initial;
    assert_eq!(scan_request(&state), Some(1));
    state = scan_step(state, AttemptClass::Accepted);
    assert_eq!(scan_request(&state), Some(1));
    state = scan_step(state, AttemptClass::Accepted);
    assert_eq!(scan_request(&state), Some(2));
    state = scan_step(state, AttemptClass::Accepted);
    assert_eq!(scan_request(&state), Some(3));
}

#[test]
fn scan_fill_cycles_and_is_never_nul() {
    assert_eq!(scan_fill(1), b'b');
    assert_eq!(scan_fill(10), b'a');
    assert_eq!(scan_fill(99), b'j');
    for extra in 0..=SCAN_LIMIT {
        assert_ne!(scan_fill(extra), 0);
    }
}
