//! Tests of the probe classifiers.

use sockprobe::fdpass::{
    classify_empty_queue, classify_fd_clone, classify_fd_clone_on_send, classify_fd_identity,
    classify_fd_lifetime, classify_framing_step, classify_zero_delivery, framing_expected_fds,
    CloneObservation, CloneOnSendObservation, EmptyQueueFinding, FramingRecv, IdentityObservation,
    LifetimeObservation, PacketRecv, ZeroDeliveryFinding,
};
use sockprobe::pathcmp::{
    classify_local_roundtrip, classify_padding, classify_path_shape, classify_peer_roundtrip,
    padding_finding_verdict, PaddingFinding, PathShape,
};
use sockprobe::probes::{
    classify_accept_timeout, classify_family_check, AcceptOutcome, AcceptWaitObservation,
};
use sockprobe::verdict::{classify_support, verdict_word, Verdict};

#[test]
fn verdict_words_are_the_five_report_words() {
    assert_eq!(verdict_word(&Verdict::Supported), "yes");
    assert_eq!(verdict_word(&Verdict::Unsupported), "no");
    assert_eq!(verdict_word(&Verdict::NotApplicable), "N/A");
    assert_eq!(verdict_word(&Verdict::Buggy), "buggy");
    assert_eq!(verdict_word(&Verdict::Maybe), "maybe");
}

#[test]
fn plain_support_classification() {
    assert_eq!(classify_support(true), Verdict::Supported);
    assert_eq!(classify_support(false), Verdict::Unsupported);
}

#[test]
fn identical_roundtrip_is_supported_with_no_detail() {
    // A path of the structural maximum length, returned byte-identical.
    let path = vec![b's'; 108];
    assert_eq!(classify_local_roundtrip(&path, Some(&path)), Verdict::Supported);
    assert_eq!(classify_peer_roundtrip(&path, Some(&path)), Verdict::Supported);
}

#[test]
fn altered_roundtrip_is_reported_not_hidden() {
    let path = vec![b's'; 108];
    let mut shorter = path.clone();
    shorter.pop();
    let mut altered = path.clone();
    altered[0] = b'S';
    let mut padded = path.clone();
    padded.push(0);
    assert_eq!(classify_local_roundtrip(&path, Some(&shorter)), Verdict::Buggy);
    assert_eq!(classify_local_roundtrip(&path, Some(&altered)), Verdict::Buggy);
    assert_eq!(classify_local_roundtrip(&path, Some(&padded)), Verdict::Buggy);
    assert_eq!(classify_peer_roundtrip(&path, Some(&altered)), Verdict::Buggy);
}

#[test]
fn missing_path_differs_between_local_and_peer_probe() {
    let path = b"normal.sock".to_vec();
    assert_eq!(classify_local_roundtrip(&path, None), Verdict::Unsupported);
    assert_eq!(classify_peer_roundtrip(&path, None), Verdict::Buggy);
}

#[test]
fn path_shapes() {
    let expected = b"normal.sock";
    assert_eq!(classify_path_shape(expected, b"normal.sock"), PathShape::Identical);
    assert_eq!(
        classify_path_shape(expected, b"normal.sock\0\0\0"),
        PathShape::NulPadded { pad: 3 }
    );
    assert_eq!(classify_path_shape(expected, b"normal.soc"), PathShape::Differs);
    assert_eq!(classify_path_shape(expected, b"normal.sockX"), PathShape::Differs);
    assert_eq!(classify_path_shape(expected, b"normal.sock\0X"), PathShape::Differs);
    assert_eq!(classify_path_shape(b"", b""), PathShape::Identical);
    assert_eq!(classify_path_shape(b"", b"\0"), PathShape::NulPadded { pad: 1 });
}

#[test]
fn padding_probe_reports_the_exact_pad_count() {
    let expected = vec![b'n'; 107];
    let mut padded = expected.clone();
    padded.push(0);
    let finding = classify_padding(&expected, Some(&padded));
    assert_eq!(finding, PaddingFinding::Padded { pad: 1 });
    assert_eq!(padding_finding_verdict(&finding), Verdict::Supported);
    // The same observation classifies to the same count every time.
    assert_eq!(classify_padding(&expected, Some(&padded)), finding);
}

#[test]
fn padding_probe_other_cases() {
    let expected = b"normal.sock".to_vec();
    assert_eq!(classify_padding(&expected, Some(&expected)), PaddingFinding::Absent);
    assert_eq!(
        padding_finding_verdict(&classify_padding(&expected, Some(&expected))),
        Verdict::Unsupported
    );
    assert_eq!(classify_padding(&expected, Some(b"other")), PaddingFinding::Anomalous);
    assert_eq!(classify_padding(&expected, None), PaddingFinding::Anomalous);
    assert_eq!(
        padding_finding_verdict(&PaddingFinding::Anomalous),
        Verdict::Buggy
    );
}

#[test]
fn lifetime_probe_classification() {
    assert_eq!(
        classify_fd_lifetime(&LifetimeObservation::ReceivedOne { usable: true }),
        Verdict::Unsupported
    );
    assert_eq!(
        classify_fd_lifetime(&LifetimeObservation::ReceivedOne { usable: false }),
        Verdict::Supported
    );
    assert_eq!(classify_fd_lifetime(&LifetimeObservation::ReceivedNone), Verdict::Supported);
    assert_eq!(classify_fd_lifetime(&LifetimeObservation::DatagramDropped), Verdict::Supported);
    assert_eq!(
        classify_fd_lifetime(&LifetimeObservation::ReceivedMany { count: 2 }),
        Verdict::NotApplicable
    );
    assert_eq!(classify_fd_lifetime(&LifetimeObservation::RecvFailed), Verdict::NotApplicable);
    assert_eq!(classify_fd_lifetime(&LifetimeObservation::SendFailed), Verdict::NotApplicable);
}

#[test]
fn identity_probe_distinguishes_both_platform_answers() {
    // Same number back, original closed: alive means the kernel
    // duplicated, dead means it did not.  The two must be told apart.
    let alive = classify_fd_identity(&IdentityObservation::ReceivedOne {
        same_number: true,
        usable: true,
    });
    let dead = classify_fd_identity(&IdentityObservation::ReceivedOne {
        same_number: true,
        usable: false,
    });
    assert_eq!(alive, Verdict::Maybe);
    assert_eq!(dead, Verdict::Supported);
    assert_ne!(alive, dead);
    assert_ne!(alive, Verdict::Buggy);
    assert_ne!(dead, Verdict::Buggy);
}

#[test]
fn identity_probe_different_number_cases() {
    assert_eq!(
        classify_fd_identity(&IdentityObservation::ReceivedOne {
            same_number: false,
            usable: true,
        }),
        Verdict::Unsupported
    );
    assert_eq!(
        classify_fd_identity(&IdentityObservation::ReceivedOne {
            same_number: false,
            usable: false,
        }),
        Verdict::Maybe
    );
    assert_eq!(classify_fd_identity(&IdentityObservation::DatagramDropped), Verdict::Supported);
}

#[test]
fn clone_probe_classification() {
    assert_eq!(
        classify_fd_clone(&CloneObservation::Received { count: 1, same_number: true }),
        Verdict::Unsupported
    );
    assert_eq!(
        classify_fd_clone(&CloneObservation::Received { count: 1, same_number: false }),
        Verdict::Supported
    );
    assert_eq!(
        classify_fd_clone(&CloneObservation::Received { count: 0, same_number: false }),
        Verdict::Buggy
    );
    assert_eq!(
        classify_fd_clone(&CloneObservation::Received { count: 2, same_number: true }),
        Verdict::Buggy
    );
    assert_eq!(classify_fd_clone(&CloneObservation::SendFailed), Verdict::NotApplicable);
}

#[test]
fn clone_on_send_guards_against_number_reuse() {
    // The received number equals the closed original's, but the fresh
    // descriptor got that very number: proves nothing, even if usable.
    assert_eq!(
        classify_fd_clone_on_send(&CloneOnSendObservation::Received {
            count: 1,
            same_number: true,
            number_reused: true,
            usable: true,
        }),
        Verdict::NotApplicable
    );
    assert_eq!(
        classify_fd_clone_on_send(&CloneOnSendObservation::Received {
            count: 1,
            same_number: true,
            number_reused: false,
            usable: true,
        }),
        Verdict::Supported
    );
    assert_eq!(
        classify_fd_clone_on_send(&CloneOnSendObservation::Received {
            count: 1,
            same_number: false,
            number_reused: false,
            usable: false,
        }),
        Verdict::Unsupported
    );
    assert_eq!(
        classify_fd_clone_on_send(&CloneOnSendObservation::Received {
            count: 3,
            same_number: false,
            number_reused: false,
            usable: false,
        }),
        Verdict::Buggy
    );
    assert_eq!(
        classify_fd_clone_on_send(&CloneOnSendObservation::SendFailed),
        Verdict::NotApplicable
    );
}

#[test]
fn framing_expects_counts_one_zero_two_three() {
    assert_eq!(framing_expected_fds(0), 1);
    assert_eq!(framing_expected_fds(1), 0);
    assert_eq!(framing_expected_fds(2), 2);
    assert_eq!(framing_expected_fds(3), 3);
}

#[test]
fn framing_run_is_supported_exactly_on_the_expected_counts() {
    let observed = [
        FramingRecv::Received { bytes: 1, fds: 1 },
        FramingRecv::Received { bytes: 1, fds: 0 },
        FramingRecv::Received { bytes: 1, fds: 2 },
        FramingRecv::Received { bytes: 1, fds: 3 },
    ];
    for (step, o) in observed.iter().enumerate() {
        assert_eq!(classify_framing_step(step, o), Verdict::Supported);
    }
    // A receive that merged ancillary data of two sends shows the wrong
    // count and fails its step.
    assert_eq!(
        classify_framing_step(0, &FramingRecv::Received { bytes: 1, fds: 3 }),
        Verdict::Unsupported
    );
    assert_eq!(
        classify_framing_step(1, &FramingRecv::Received { bytes: 1, fds: 1 }),
        Verdict::Unsupported
    );
    assert_eq!(
        classify_framing_step(2, &FramingRecv::Received { bytes: 2, fds: 2 }),
        Verdict::Unsupported
    );
    assert_eq!(classify_framing_step(3, &FramingRecv::RecvFailed), Verdict::Unsupported);
}

#[test]
fn seqpacket_zero_length_findings_are_independent() {
    // Each sub-probe classifies its own observation; every combination of
    // the definite findings is reachable.
    assert_eq!(classify_empty_queue(&PacketRecv::Empty), EmptyQueueFinding::ReturnsImmediately);
    assert_eq!(classify_empty_queue(&PacketRecv::WouldBlock), EmptyQueueFinding::Blocks);
    assert_eq!(classify_empty_queue(&PacketRecv::Unexpected), EmptyQueueFinding::Strange);
    assert_eq!(classify_zero_delivery(&PacketRecv::Empty), ZeroDeliveryFinding::Delivered);
    assert_eq!(classify_zero_delivery(&PacketRecv::WouldBlock), ZeroDeliveryFinding::Dropped);
    assert_eq!(classify_zero_delivery(&PacketRecv::Unexpected), ZeroDeliveryFinding::Strange);
}

#[test]
fn accept_timeout_classification() {
    assert_eq!(
        classify_accept_timeout(&AcceptWaitObservation::Reported {
            outcome: AcceptOutcome::TimedOut,
        }),
        Verdict::Supported
    );
    assert_eq!(
        classify_accept_timeout(&AcceptWaitObservation::Reported {
            outcome: AcceptOutcome::OtherError,
        }),
        Verdict::Buggy
    );
    assert_eq!(
        classify_accept_timeout(&AcceptWaitObservation::Reported {
            outcome: AcceptOutcome::Connected,
        }),
        Verdict::Buggy
    );
    assert_eq!(
        classify_accept_timeout(&AcceptWaitObservation::WaitExpired),
        Verdict::Unsupported
    );
    assert_eq!(
        classify_accept_timeout(&AcceptWaitObservation::WorkerVanished),
        Verdict::Buggy
    );
    assert_eq!(
        classify_accept_timeout(&AcceptWaitObservation::OptionRejected),
        Verdict::Unsupported
    );
}

#[test]
fn family_check_demands_both_rejections() {
    assert_eq!(classify_family_check(true, true), Verdict::Supported);
    assert_eq!(classify_family_check(true, false), Verdict::Buggy);
    assert_eq!(classify_family_check(false, true), Verdict::Buggy);
    assert_eq!(classify_family_check(false, false), Verdict::Buggy);
}
