//! Byte-level helpers over ASCII text: case folding, character classes,
//! literal comparison and maximal runs.

use vstd::prelude::*;
use vstd::string::StringSliceAdditionalSpecFns;

verus! {

/// The bytes of a string literal.
pub open spec fn lit(s: &str) -> Seq<u8> {
    s.spec_bytes()
}

pub open spec fn is_digit(b: u8) -> bool {
    48 <= b <= 57
}

pub open spec fn is_digit_or_dot(b: u8) -> bool {
    is_digit(b) || b == 46
}

/// `\w` over ASCII: letters, digits and underscore.
pub open spec fn is_word(b: u8) -> bool {
    is_digit(b) || (65 <= b <= 90) || (97 <= b <= 122) || b == 95
}

/// `\s` over ASCII: space, tab, line feed, vertical tab, form feed, carriage return.
pub open spec fn is_space(b: u8) -> bool {
    b == 32 || (9 <= b <= 13)
}

pub open spec fn lower(b: u8) -> u8 {
    if 65 <= b <= 90 {
        (b + 32) as u8
    } else {
        b
    }
}

pub open spec fn lower_seq(s: Seq<u8>) -> Seq<u8> {
    Seq::new(s.len(), |i: int| lower(s[i]))
}

/// `s` holds the lower-case literal `l` at position `i`, ignoring ASCII case.
pub open spec fn ci_at(s: Seq<u8>, i: int, l: Seq<u8>) -> bool {
    0 <= i && i + l.len() <= s.len() && lower_seq(s.subrange(i, i + l.len())) == l
}

/// End of the maximal run of digits that starts at `p`.
pub open spec fn digits_end(s: Seq<u8>, p: int) -> int
    decreases s.len() - p,
{
    if 0 <= p < s.len() && is_digit(s[p]) {
        digits_end(s, p + 1)
    } else {
        p
    }
}

/// End of the maximal run of digits and dots that starts at `p`.
pub open spec fn digit_dots_end(s: Seq<u8>, p: int) -> int
    decreases s.len() - p,
{
    if 0 <= p < s.len() && is_digit_or_dot(s[p]) {
        digit_dots_end(s, p + 1)
    } else {
        p
    }
}

/// End of the maximal run of word bytes that starts at `p`.
pub open spec fn word_end(s: Seq<u8>, p: int) -> int
    decreases s.len() - p,
{
    if 0 <= p < s.len() && is_word(s[p]) {
        word_end(s, p + 1)
    } else {
        p
    }
}

/// End of the maximal run of whitespace that starts at `p`.
pub open spec fn space_end(s: Seq<u8>, p: int) -> int
    decreases s.len() - p,
{
    if 0 <= p < s.len() && is_space(s[p]) {
        space_end(s, p + 1)
    } else {
        p
    }
}

pub fn is_digit_byte(b: u8) -> (r: bool)
    ensures
        r == is_digit(b),
{
    48 <= b && b <= 57
}

pub fn lower_byte(b: u8) -> (r: u8)
    ensures
        r == lower(b),
{
    if 65 <= b && b <= 90 {
        b + 32
    } else {
        b
    }
}

/// The ASCII lower-case form of `s[from..to]`; other bytes are kept.
pub fn to_lower_range(s: &[u8], from: usize, to: usize) -> (r: Vec<u8>)
    requires
        from <= to <= s@.len(),
    ensures
        r@ == lower_seq(s@.subrange(from as int, to as int)),
{
    let mut r: Vec<u8> = Vec::new();
    let mut i: usize = from;
    while i < to
        invariant
            from <= i <= to <= s@.len(),
            r@ == lower_seq(s@.subrange(from as int, i as int)),
        decreases to - i,
    {
        r.push(lower_byte(s[i]));
        i += 1;
        assert(r@ =~= lower_seq(s@.subrange(from as int, i as int)));
    }
    r
}

/// The ASCII lower-case form of `s`; other bytes are kept.
pub fn to_lower(s: &[u8]) -> (r: Vec<u8>)
    ensures
        r@ == lower_seq(s@),
{
    let r = to_lower_range(s, 0, s.len());
    assert(s@.subrange(0, s@.len() as int) =~= s@);
    r
}

pub fn bytes_eq(a: &[u8], b: &[u8]) -> (r: bool)
    ensures
        r == (a@ == b@),
{
    if a.len() != b.len() {
        return false;
    }
    let mut i: usize = 0;
    while i < a.len()
        invariant
            a@.len() == b@.len(),
            0 <= i <= a@.len(),
            forall|k: int| 0 <= k < i ==> a@[k] == b@[k],
        decreases a@.len() - i,
    {
        if a[i] != b[i] {
            return false;
        }
        i += 1;
    }
    assert(a@ =~= b@);
    true
}

/// Whether `s` holds the lower-case literal `l` at `i`, ignoring ASCII case.
pub fn ci_match_at(s: &[u8], i: usize, l: &[u8]) -> (r: bool)
    ensures
        r == ci_at(s@, i as int, l@),
{
    if i > s.len() || l.len() > s.len() - i {
        return false;
    }
    let n = s.len();
    let mut k: usize = 0;
    while k < l.len()
        invariant
            n == s@.len(),
            i + l@.len() <= s@.len(),
            0 <= k <= l@.len(),
            forall|j: int| 0 <= j < k ==> lower(s@[i + j]) == l@[j],
        decreases l@.len() - k,
    {
        if lower_byte(s[i + k]) != l[k] {
            assert(lower_seq(s@.subrange(i as int, i + l@.len()))[k as int] != l@[k as int]);
            return false;
        }
        k += 1;
    }
    assert(lower_seq(s@.subrange(i as int, i + l@.len())) =~= l@);
    true
}

pub fn find_digits_end(s: &[u8], p: usize) -> (r: usize)
    requires
        p <= s@.len(),
    ensures
        r == digits_end(s@, p as int),
        p <= r <= s@.len(),
{
    let mut i: usize = p;
    while i < s.len() && is_digit_byte(s[i])
        invariant
            p <= i <= s@.len(),
            digits_end(s@, p as int) == digits_end(s@, i as int),
        decreases s@.len() - i,
    {
        i += 1;
    }
    i
}

pub fn find_digit_dots_end(s: &[u8], p: usize) -> (r: usize)
    requires
        p <= s@.len(),
    ensures
        r == digit_dots_end(s@, p as int),
        p <= r <= s@.len(),
{
    let mut i: usize = p;
    while i < s.len() && (is_digit_byte(s[i]) || s[i] == 46)
        invariant
            p <= i <= s@.len(),
            digit_dots_end(s@, p as int) == digit_dots_end(s@, i as int),
        decreases s@.len() - i,
    {
        i += 1;
    }
    i
}

pub fn find_word_end(s: &[u8], p: usize) -> (r: usize)
    requires
        p <= s@.len(),
    ensures
        r == word_end(s@, p as int),
        p <= r <= s@.len(),
{
    let mut i: usize = p;
    while i < s.len() && (is_digit_byte(s[i]) || (65 <= s[i] && s[i] <= 90) || (97 <= s[i]
        && s[i] <= 122) || s[i] == 95)
        invariant
            p <= i <= s@.len(),
            word_end(s@, p as int) == word_end(s@, i as int),
        decreases s@.len() - i,
    {
        i += 1;
    }
    i
}

pub fn find_space_end(s: &[u8], p: usize) -> (r: usize)
    requires
        p <= s@.len(),
    ensures
        r == space_end(s@, p as int),
        p <= r <= s@.len(),
{
    let mut i: usize = p;
    while i < s.len() && (s[i] == 32 || (9 <= s[i] && s[i] <= 13))
        invariant
            p <= i <= s@.len(),
            space_end(s@, p as int) == space_end(s@, i as int),
        decreases s@.len() - i,
    {
        i += 1;
    }
    i
}

/// Appends `s[from..to]` to `out`.
pub fn push_range(out: &mut Vec<u8>, s: &[u8], from: usize, to: usize)
    requires
        from <= to <= s@.len(),
    ensures
        final(out)@ == old(out)@ + s@.subrange(from as int, to as int),
{
    let mut j: usize = from;
    while j < to
        invariant
            from <= j <= to <= s@.len(),
            out@ == old(out)@ + s@.subrange(from as int, j as int),
        decreases to - j,
    {
        out.push(s[j]);
        j += 1;
        assert(out@ =~= old(out)@ + s@.subrange(from as int, j as int));
    }
}
/// The bytes of `s`, in a vector of their own.
pub fn copy_str(s: &str) -> (r: Vec<u8>)
    ensures
        r@ == lit(s),
{
    let b = s.as_bytes();
    let mut out: Vec<u8> = Vec::new();
    push_range(&mut out, b, 0, b.len());
    assert(b@.subrange(0, b@.len() as int) =~= b@);
    out
}
} // verus!
