//! Capability verdicts and the words they are reported under.

use vstd::prelude::*;

verus! {

/// The classified result of one probe.
///
/// `Maybe` covers partial or borderline observations (for example a
/// descriptor that appears alive but whose identity is ambiguous); it is
/// never folded into a plain yes or no.
#[derive(Clone, Copy, Debug, PartialEq, Eq, Structural)]
pub enum Verdict {
    Supported,
    Unsupported,
    NotApplicable,
    Buggy,
    Maybe,
}

/// The word under which a verdict is printed, one per variant.
pub fn verdict_word(v: &Verdict) -> (word: &'static str)
    ensures
        v is Supported ==> word@ == "yes"@,
        v is Unsupported ==> word@ == "no"@,
        v is NotApplicable ==> word@ == "N/A"@,
        v is Buggy ==> word@ == "buggy"@,
        v is Maybe ==> word@ == "maybe"@,
{
    match v {
        Verdict::Supported => "yes",
        Verdict::Unsupported => "no",
        Verdict::NotApplicable => "N/A",
        Verdict::Buggy => "buggy",
        Verdict::Maybe => "maybe",
    }
}

/// A plain supported/unsupported observation: an operation either
/// succeeded or failed, and either answer is a valid capability result.
pub fn classify_support(succeeded: bool) -> (v: Verdict)
    ensures
        v == (if succeeded { Verdict::Supported } else { Verdict::Unsupported }),
{
    if succeeded {
        Verdict::Supported
    } else {
        Verdict::Unsupported
    }
}

} // verus!
