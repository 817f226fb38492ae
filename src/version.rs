//! Version numbers: reading a run of decimal digits, and writing one.

use vstd::prelude::*;
use crate::text::is_digit;

verus! {

/// Every byte of `s` is a digit, and there is at least one.
pub open spec fn is_numeric(s: Seq<u8>) -> bool {
    s.len() > 0 && forall|i: int| 0 <= i < s.len() ==> is_digit(#[trigger] s[i])
}

/// The number that the decimal digits `s` spell.
pub open spec fn digits_value(s: Seq<u8>) -> nat
    decreases s.len(),
{
    if s.len() == 0 {
        0
    } else {
        digits_value(s.drop_last()) * 10 + (s.last() - 48) as nat
    }
}

/// The version number that `s` spells, when it is a run of digits whose
/// value fits in a `u32`.
pub open spec fn version_value(s: Seq<u8>) -> Option<u32> {
    if is_numeric(s) && digits_value(s) <= u32::MAX {
        Some(digits_value(s) as u32)
    } else {
        None
    }
}

/// The decimal digits of `n`, without leading zeros.
pub open spec fn decimal(n: nat) -> Seq<u8>
    decreases n,
{
    if n < 10 {
        seq![(n + 48) as u8]
    } else {
        decimal(n / 10).push((n % 10 + 48) as u8)
    }
}

/// Reads a version number written in decimal digits.
pub fn parse_version(s: &[u8]) -> (r: Option<u32>)
    ensures
        r == version_value(s@),
{
    if s.len() == 0 {
        return None;
    }
    let mut acc: u64 = 0;
    let mut i: usize = 0;
    while i < s.len()
        invariant
            0 <= i <= s@.len(),
            acc == digits_value(s@.subrange(0, i as int)),
            acc <= u32::MAX,
            forall|k: int| 0 <= k < i ==> is_digit(#[trigger] s@[k]),
        decreases s@.len() - i,
    {
        let b = s[i];
        assert(s@.subrange(0, i + 1).drop_last() =~= s@.subrange(0, i as int));
        if b < 48 || b > 57 {
            return None;
        }
        let next: u64 = acc * 10 + (b - 48) as u64;
        if next > u32::MAX as u64 {
            proof {
                lemma_value_grows(s@, i as int + 1);
            }
            return None;
        }
        acc = next;
        i += 1;
    }
    assert(s@.subrange(0, s@.len() as int) =~= s@);
    Some(acc as u32)
}

/// A longer run of digits has at least the value of its prefix.
proof fn lemma_value_grows(s: Seq<u8>, j: int)
    requires
        0 <= j <= s.len(),
        forall|k: int| 0 <= k < s.len() ==> is_digit(#[trigger] s[k]) || k >= j,
    ensures
        is_numeric(s) ==> digits_value(s.subrange(0, j)) <= digits_value(s),
    decreases s.len() - j,
{
    if j < s.len() && is_numeric(s) {
        assert(s.subrange(0, j + 1).drop_last() =~= s.subrange(0, j));
        lemma_value_grows(s, j + 1);
    }
    if j == s.len() {
        assert(s.subrange(0, j) =~= s);
    }
}

/// Appends the decimal digits of `n` to `out`.
pub fn push_decimal(out: &mut Vec<u8>, n: u32)
    ensures
        final(out)@ == old(out)@ + decimal(n as nat),
    decreases n,
{
    if n >= 10 {
        push_decimal(out, n / 10);
    }
    out.push((n % 10 + 48) as u8);
    assert(final(out)@ =~= old(out)@ + decimal(n as nat));
}

} // verus!
