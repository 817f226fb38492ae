//! The shortcut parser: text already in the shape `word/major[.minor[.patch]]`.

use vstd::prelude::*;
use crate::text::{digits_end, find_digits_end, find_word_end, lower_seq, push_range, to_lower_range, word_end};

verus! {

/// A family name with its version as text, as a parser hands it over.
pub struct RawAgent {
    pub family: Vec<u8>,
    pub major: Option<Vec<u8>>,
    pub minor: Option<Vec<u8>>,
}

/// The view of a raw agent: family, major and minor as byte sequences.
pub open spec fn raw_view(a: &RawAgent) -> (Seq<u8>, Option<Seq<u8>>, Option<Seq<u8>>) {
    (a.family@, opt_view(a.major), opt_view(a.minor))
}

pub open spec fn opt_view(o: Option<Vec<u8>>) -> Option<Seq<u8>> {
    match o {
        Some(v) => Some(v@),
        None => None,
    }
}

/// The parse of `s` when the whole of it is `word/major[.minor[.patch]]`: the
/// word lower-cased, the major digits, and the minor digits when present. The
/// patch digits are read past and dropped.
pub open spec fn direct_spec(s: Seq<u8>) -> Option<(Seq<u8>, Option<Seq<u8>>, Option<Seq<u8>>)> {
    let w = word_end(s, 0);
    let d1 = digits_end(s, w + 1);
    let d2 = digits_end(s, d1 + 1);
    let d3 = digits_end(s, d2 + 1);
    let family = lower_seq(s.subrange(0, w));
    let major = s.subrange(w + 1, d1);
    let minor = s.subrange(d1 + 1, d2);
    if !(0 < w < s.len() && s[w] == 47 && d1 > w + 1) {
        None
    } else if d1 == s.len() {
        Some((family, Some(major), None))
    } else if !(s[d1] == 46 && d2 > d1 + 1) {
        None
    } else if d2 == s.len() {
        Some((family, Some(major), Some(minor)))
    } else if s[d2] == 46 && d3 > d2 + 1 && d3 == s.len() {
        Some((family, Some(major), Some(minor)))
    } else {
        None
    }
}

fn copy_range(s: &[u8], from: usize, to: usize) -> (r: Vec<u8>)
    requires
        from <= to <= s@.len(),
    ensures
        r@ == s@.subrange(from as int, to as int),
{
    let mut out: Vec<u8> = Vec::new();
    push_range(&mut out, s, from, to);
    assert(out@ =~= s@.subrange(from as int, to as int));
    out
}

/// Reads `s` as `word/major[.minor[.patch]]`, anchored at both ends.
pub fn try_direct(s: &[u8]) -> (r: Option<RawAgent>)
    ensures
        match r {
            Some(a) => direct_spec(s@) == Some(raw_view(&a)),
            None => direct_spec(s@) is None,
        },
{
    let n = s.len();
    let w = find_word_end(s, 0);
    if !(0 < w && w < n && s[w] == 47) {
        return None;
    }
    let d1 = find_digits_end(s, w + 1);
    if d1 <= w + 1 {
        return None;
    }
    let family = to_lower_range(s, 0, w);
    let major = copy_range(s, w + 1, d1);
    if d1 == n {
        return Some(RawAgent { family, major: Some(major), minor: None });
    }
    if !(s[d1] == 46) {
        return None;
    }
    let d2 = find_digits_end(s, d1 + 1);
    if d2 <= d1 + 1 {
        return None;
    }
    let minor = copy_range(s, d1 + 1, d2);
    if d2 == n {
        return Some(RawAgent { family, major: Some(major), minor: Some(minor) });
    }
    if !(s[d2] == 46) {
        return None;
    }
    let d3 = find_digits_end(s, d2 + 1);
    if d3 > d2 + 1 && d3 == n {
        Some(RawAgent { family, major: Some(major), minor: Some(minor) })
    } else {
        None
    }
}

} // verus!
