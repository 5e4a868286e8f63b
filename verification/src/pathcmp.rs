//! Comparison of a bound socket path with the path the system reports back.
//!
//! Several probes bind a socket to a known path, read the local or peer
//! address back, and classify the relation between the two: byte-identical,
//! identical up to trailing nul padding, or deviating in any other way.  A
//! deviation is always surfaced as its own finding, never folded into plain
//! support.

use vstd::prelude::*;
use crate::verdict::Verdict;

verus! {

/// How a returned path relates to the path that was bound.
#[derive(Clone, Copy, Debug, PartialEq, Eq, Structural)]
pub enum PathShape {
    /// Same length, same bytes.
    Identical,
    /// The bound path followed by `pad > 0` nul bytes and nothing else.
    NulPadded { pad: usize },
    /// Any other relation: shorter, altered, or padded with non-nuls.
    Differs,
}

/// The returned path is the expected one plus at least one trailing nul
/// byte and nothing else.
pub open spec fn nul_padded(expected: Seq<u8>, got: Seq<u8>) -> bool {
    &&& got.len() > expected.len()
    &&& got.subrange(0, expected.len() as int) == expected
    &&& forall|i: int| expected.len() <= i < got.len() ==> got[i] == 0
}

/// The shape of a returned path relative to the expected one.
pub open spec fn path_shape(expected: Seq<u8>, got: Seq<u8>) -> PathShape {
    if got == expected {
        PathShape::Identical
    } else if nul_padded(expected, got) {
        PathShape::NulPadded { pad: (got.len() - expected.len()) as usize }
    } else {
        PathShape::Differs
    }
}

/// True if the two byte slices hold the same bytes.
fn bytes_equal(a: &[u8], b: &[u8]) -> (r: bool)
    ensures
        r <==> a@ == b@,
{
    if a.len() != b.len() {
        return false;
    }
    let mut i: usize = 0;
    while i < a.len()
        invariant
            a@.len() == b@.len(),
            i <= a@.len(),
            forall|j: int| 0 <= j < i ==> a@[j] == b@[j],
        decreases a@.len() - i,
    {
        if a[i] != b[i] {
            return false;
        }
        i = i + 1;
    }
    proof {
        assert(a@ =~= b@);
    }
    true
}

/// Classifies the relation between the bound path and the one read back.
pub fn classify_path_shape(expected: &[u8], got: &[u8]) -> (r: PathShape)
    ensures
        r == path_shape(expected@, got@),
{
    if got.len() == expected.len() {
        if bytes_equal(expected, got) {
            PathShape::Identical
        } else {
            PathShape::Differs
        }
    } else if got.len() > expected.len() {
        let mut i: usize = 0;
        let mut prefix_ok: bool = true;
        while i < expected.len()
            invariant
                got@.len() > expected@.len(),
                i <= expected@.len(),
                prefix_ok <==> (forall|j: int| 0 <= j < i ==> got@[j] == expected@[j]),
            decreases expected@.len() - i,
        {
            if got[i] != expected[i] {
                prefix_ok = false;
            }
            i = i + 1;
        }
        let mut k: usize = expected.len();
        let mut suffix_ok: bool = true;
        while k < got.len()
            invariant
                got@.len() > expected@.len(),
                expected@.len() <= k <= got@.len(),
                suffix_ok <==> (forall|j: int| expected@.len() <= j < k ==> got@[j] == 0),
            decreases got@.len() - k,
        {
            if got[k] != 0 {
                suffix_ok = false;
            }
            k = k + 1;
        }
        if prefix_ok && suffix_ok {
            proof {
                assert(got@.subrange(0, expected@.len() as int) =~= expected@);
                assert(got@ != expected@);
            }
            PathShape::NulPadded { pad: got.len() - expected.len() }
        } else {
            PathShape::Differs
        }
    } else {
        PathShape::Differs
    }
}

/// Maps an `Option` of a returned path slice to its mathematical view.
pub open spec fn opt_path_view(got: Option<&[u8]>) -> Option<Seq<u8>> {
    match got {
        Some(g) => Some(g@),
        None => None,
    }
}

/// Verdict of the local round-trip probe: bind to a path, read the locally
/// bound address back.  A byte-identical path is support, a missing path is
/// plain lack of support, and any differing path is a bug to surface.
pub open spec fn local_roundtrip_verdict(expected: Seq<u8>, got: Option<Seq<u8>>) -> Verdict {
    match got {
        Some(g) => if g == expected {
            Verdict::Supported
        } else {
            Verdict::Buggy
        },
        None => Verdict::Unsupported,
    }
}

/// Verdict of the peer round-trip probe: the sender's address as seen by
/// the receiver of its datagram.  Unlike the local probe, an address that
/// is not a path at all is itself anomalous here, since the sender was
/// demonstrably bound to one.
pub open spec fn peer_roundtrip_verdict(expected: Seq<u8>, got: Option<Seq<u8>>) -> Verdict {
    match got {
        Some(g) => if g == expected {
            Verdict::Supported
        } else {
            Verdict::Buggy
        },
        None => Verdict::Buggy,
    }
}

/// Classifies the locally-read-back address against the bound path.
pub fn classify_local_roundtrip(expected: &[u8], got: Option<&[u8]>) -> (v: Verdict)
    ensures
        v == local_roundtrip_verdict(expected@, opt_path_view(got)),
{
    match got {
        Some(g) => if bytes_equal(expected, g) {
            Verdict::Supported
        } else {
            Verdict::Buggy
        },
        None => Verdict::Unsupported,
    }
}

/// Classifies the peer-reported address against the path the sender bound.
pub fn classify_peer_roundtrip(expected: &[u8], got: Option<&[u8]>) -> (v: Verdict)
    ensures
        v == peer_roundtrip_verdict(expected@, opt_path_view(got)),
{
    match got {
        Some(g) => if bytes_equal(expected, g) {
            Verdict::Supported
        } else {
            Verdict::Buggy
        },
        None => Verdict::Buggy,
    }
}

/// Finding of the trailing-nul probe.
#[derive(Clone, Copy, Debug, PartialEq, Eq, Structural)]
pub enum PaddingFinding {
    /// The returned path matches exactly: no padding observed.
    Absent,
    /// The returned path is the bound one plus exactly `pad` trailing nuls.
    Padded { pad: usize },
    /// The returned path relates to the bound one in some other way, or is
    /// missing entirely.
    Anomalous,
}

/// Finding of the trailing-nul probe for a bound path and the address read
/// back.
pub open spec fn padding_finding(expected: Seq<u8>, got: Option<Seq<u8>>) -> PaddingFinding {
    match got {
        Some(g) => match path_shape(expected, g) {
            PathShape::Identical => PaddingFinding::Absent,
            PathShape::NulPadded { pad } => PaddingFinding::Padded { pad },
            PathShape::Differs => PaddingFinding::Anomalous,
        },
        None => PaddingFinding::Anomalous,
    }
}

/// The verdict a padding finding is reported under: padding present is the
/// affirmative answer of this probe, its absence the negative one, and
/// anything else a bug.
pub open spec fn padding_verdict(f: PaddingFinding) -> Verdict {
    match f {
        PaddingFinding::Absent => Verdict::Unsupported,
        PaddingFinding::Padded { pad } => Verdict::Supported,
        PaddingFinding::Anomalous => Verdict::Buggy,
    }
}

/// Classifies the trailing-nul probe's observation.
pub fn classify_padding(expected: &[u8], got: Option<&[u8]>) -> (f: PaddingFinding)
    ensures
        f == padding_finding(expected@, opt_path_view(got)),
{
    match got {
        Some(g) => match classify_path_shape(expected, g) {
            PathShape::Identical => PaddingFinding::Absent,
            PathShape::NulPadded { pad } => PaddingFinding::Padded { pad },
            PathShape::Differs => PaddingFinding::Anomalous,
        },
        None => PaddingFinding::Anomalous,
    }
}

/// The word a padding finding is printed under.
pub fn padding_finding_verdict(f: &PaddingFinding) -> (v: Verdict)
    ensures
        v == padding_verdict(*f),
{
    match f {
        PaddingFinding::Absent => Verdict::Unsupported,
        PaddingFinding::Padded { pad } => Verdict::Supported,
        PaddingFinding::Anomalous => Verdict::Buggy,
    }
}

/// Law: for any bound path and any address read back, the round-trip
/// probes report support exactly when the returned path has the same
/// length and the same bytes as the bound one; every truncated, padded or
/// otherwise altered return is classified as a deviation, never hidden
/// behind support.
pub proof fn lemma_roundtrip_reports_deviation(expected: Seq<u8>, got: Option<Seq<u8>>)
    ensures
        local_roundtrip_verdict(expected, got) == Verdict::Supported <==> got == Some(expected),
        peer_roundtrip_verdict(expected, got) == Verdict::Supported <==> got == Some(expected),
        got matches Some(g) && g != expected ==> local_roundtrip_verdict(expected, got) == Verdict::Buggy,
        got matches Some(g) && g != expected ==> peer_roundtrip_verdict(expected, got) == Verdict::Buggy,
{
}

/// Law, end to end: when the system returns the bound path unchanged, the
/// round-trip probe reports plain support and the trailing-nul probe
/// reports no padding; when it returns the bound path with `pad` trailing
/// nuls, the trailing-nul probe reports padding of exactly `pad` bytes.
/// Both findings are functions of the observed path alone, so the same
/// observation always yields the same count.
pub proof fn lemma_end_to_end_classification(expected: Seq<u8>, pad: nat)
    requires
        0 < pad <= usize::MAX,
    ensures
        local_roundtrip_verdict(expected, Some(expected)) == Verdict::Supported,
        padding_finding(expected, Some(expected)) == PaddingFinding::Absent,
        padding_finding(expected, Some(expected + Seq::new(pad, |i: int| 0u8)))
            == (PaddingFinding::Padded { pad: pad as usize }),
{
    let padded = expected + Seq::new(pad, |i: int| 0u8);
    assert(padded.len() == expected.len() + pad);
    assert(padded != expected);
    assert(padded.subrange(0, expected.len() as int) =~= expected);
    assert(forall|i: int| expected.len() <= i < padded.len() ==> padded[i] == 0);
    assert(nul_padded(expected, padded));
}

} // verus!
