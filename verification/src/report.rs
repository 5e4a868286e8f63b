//! The verdict reporter: renders one probe's verdict line.
//!
//! A report line is the probe's name, one space, the verdict word, and —
//! when there is diagnostic detail — one space and the detail in
//! parentheses.  The rendering is pure: it assembles exactly those bytes
//! and nothing else.  Printing the line is left to the caller.

use vstd::prelude::*;
use crate::verdict::Verdict;

verus! {

/// The space byte that separates name, word and detail.
pub const SPACE: u8 = 32;

/// The parenthesis bytes that enclose the detail.
pub const OPEN_PAREN: u8 = 40;

/// The closing counterpart of [`OPEN_PAREN`].
pub const CLOSE_PAREN: u8 = 41;

/// The bytes of the word a verdict is reported under: the same five words
/// that `verdict_word` in the verdict module returns as string slices.
pub open spec fn word_bytes(v: Verdict) -> Seq<u8> {
    match v {
        Verdict::Supported => seq![121u8, 101u8, 115u8],  // "yes"
        Verdict::Unsupported => seq![110u8, 111u8],  // "no"
        Verdict::NotApplicable => seq![78u8, 47u8, 65u8],  // "N/A"
        Verdict::Buggy => seq![98u8, 117u8, 103u8, 103u8, 121u8],  // "buggy"
        Verdict::Maybe => seq![109u8, 97u8, 121u8, 98u8, 101u8],  // "maybe"
    }
}

/// The word a verdict is reported under, as bytes.
pub fn verdict_word_bytes(v: &Verdict) -> (r: Vec<u8>)
    ensures
        r@ == word_bytes(*v),
{
    let mut r: Vec<u8> = Vec::new();
    match v {
        Verdict::Supported => {
            r.push(121);
            r.push(101);
            r.push(115);
        },
        Verdict::Unsupported => {
            r.push(110);
            r.push(111);
        },
        Verdict::NotApplicable => {
            r.push(78);
            r.push(47);
            r.push(65);
        },
        Verdict::Buggy => {
            r.push(98);
            r.push(117);
            r.push(103);
            r.push(103);
            r.push(121);
        },
        Verdict::Maybe => {
            r.push(109);
            r.push(97);
            r.push(121);
            r.push(98);
            r.push(101);
        },
    }
    proof {
        assert(r@ =~= word_bytes(*v));
    }
    r
}

/// The decimal digits of a number, most significant first, with no sign
/// and no leading zeroes (a single zero for zero itself).
pub open spec fn decimal_digits(n: nat) -> Seq<u8>
    decreases n,
{
    if n < 10 {
        seq![(48 + n) as u8]
    } else {
        decimal_digits(n / 10) + seq![(48 + n % 10) as u8]
    }
}

/// Renders a number as its decimal digits.
pub fn decimal_bytes(n: usize) -> (r: Vec<u8>)
    ensures
        r@ == decimal_digits(n as nat),
{
    let mut digits: Vec<u8> = Vec::new();
    let mut m: usize = n;
    while m >= 10
        invariant
            decimal_digits(n as nat) == decimal_digits(m as nat) + digits@,
        decreases m,
    {
        let ghost pre = digits@;
        let d: u8 = 48 + (m % 10) as u8;
        digits.insert(0, d);
        proof {
            assert(digits@ =~= seq![d] + pre);
            assert(decimal_digits(m as nat) == decimal_digits((m as nat) / 10) + seq![d]);
            assert(decimal_digits((m as nat) / 10) + (seq![d] + pre) =~= decimal_digits(
                m as nat,
            ) + pre);
        }
        m = m / 10;
    }
    let ghost pre = digits@;
    let d: u8 = 48 + (m % 10) as u8;
    digits.insert(0, d);
    proof {
        assert(digits@ =~= seq![d] + pre);
        assert(decimal_digits(m as nat) =~= seq![d]);
        assert(seq![d] + pre =~= decimal_digits(m as nat) + pre);
    }
    digits
}

/// One report line: the probe's name, a space, the verdict word, and the
/// detail — when there is one — after another space, in parentheses.
pub open spec fn line_bytes(name: Seq<u8>, word: Seq<u8>, detail: Option<Seq<u8>>) -> Seq<u8> {
    match detail {
        Some(d) => name + seq![SPACE] + word + seq![SPACE, OPEN_PAREN] + d + seq![CLOSE_PAREN],
        None => name + seq![SPACE] + word,
    }
}

/// Appends a byte slice to the buffer.
fn append_bytes(out: &mut Vec<u8>, s: &[u8])
    ensures
        final(out)@ == old(out)@ + s@,
{
    let mut i: usize = 0;
    while i < s.len()
        invariant
            i <= s@.len(),
            out@ == old(out)@ + s@.subrange(0, i as int),
        decreases s@.len() - i,
    {
        out.push(s[i]);
        proof {
            assert(old(out)@ + s@.subrange(0, i + 1) =~= (old(out)@ + s@.subrange(0, i as int)).push(
                s@[i as int],
            ));
        }
        i = i + 1;
    }
    proof {
        assert(s@.subrange(0, s@.len() as int) =~= s@);
    }
}

/// Renders one probe's report line.
pub fn render_line(name: &[u8], word: &[u8], detail: Option<&[u8]>) -> (r: Vec<u8>)
    ensures
        r@ == line_bytes(
            name@,
            word@,
            match detail {
                Some(d) => Some(d@),
                None => None,
            },
        ),
{
    let mut r: Vec<u8> = Vec::new();
    append_bytes(&mut r, name);
    r.push(SPACE);
    append_bytes(&mut r, word);
    match detail {
        Some(d) => {
            r.push(SPACE);
            r.push(OPEN_PAREN);
            append_bytes(&mut r, d);
            r.push(CLOSE_PAREN);
            proof {
                assert(r@ =~= line_bytes(name@, word@, Some(d@)));
            }
        },
        None => {
            proof {
                assert(r@ =~= line_bytes(name@, word@, None::<Seq<u8>>));
            }
        },
    }
    r
}

} // verus!
