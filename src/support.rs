//! The support gate: minimum versions per family, and the normalised tuple
//! that comes out of it.

use vstd::prelude::*;
use crate::family::{code, family_named, family_of, Family};
use crate::text::copy_str;
use crate::version::{decimal, push_decimal};

verus! {

/// A normalised user agent. When `family` is `Other`, all three numbers are 0.
#[derive(Clone, Copy, PartialEq, Eq, Structural, Debug)]
pub struct NormalizedUa {
    pub family: Family,
    pub major: u32,
    pub minor: u32,
    pub patch: u32,
}

/// The sentinel `other/0.0.0`.
pub open spec fn sentinel() -> NormalizedUa {
    NormalizedUa { family: Family::Other, major: 0, minor: 0, patch: 0 }
}

/// The normalised-tuple invariant: the sentinel family carries no version.
pub open spec fn well_formed(n: NormalizedUa) -> bool {
    n.family == Family::Other ==> n.major == 0 && n.minor == 0 && n.patch == 0
}

/// The leading decimal digit of `n`.
pub open spec fn leading_digit(n: nat) -> nat
    decreases n,
{
    if n < 10 {
        n
    } else {
        leading_digit(n / 10)
    }
}

/// `major.minor`, read as a decimal number, is at least 4.3: the major is
/// above 4, or it is 4 and the first digit after the point is at least 3.
pub open spec fn android_supported(major: u32, minor: u32) -> bool {
    major > 4 || (major == 4 && leading_digit(minor as nat) >= 3)
}

/// The lowest supported major version of a family gated on the major alone.
pub open spec fn min_major(f: Family) -> Option<u32> {
    match f {
        Family::Edge => Some(0),
        Family::EdgeMob => Some(0),
        Family::Ie => Some(8),
        Family::IeMob => Some(11),
        Family::Chrome => Some(29),
        Family::Safari => Some(9),
        Family::IosSaf => Some(9),
        Family::IosChr => Some(9),
        Family::Firefox => Some(38),
        Family::FirefoxMob => Some(38),
        Family::Opera => Some(33),
        Family::OpMob => Some(10),
        Family::OpMini => Some(5),
        Family::Bb => Some(6),
        Family::SamsungMob => Some(4),
        Family::Android => None,
        Family::Other => None,
    }
}

/// Whether version `major.minor` of family `f` is supported.
pub open spec fn supported(f: Family, major: u32, minor: u32) -> bool {
    match f {
        Family::Android => android_supported(major, minor),
        Family::Other => false,
        _ => match min_major(f) {
            Some(m) => major >= m,
            None => false,
        },
    }
}

/// The tuple that family name `name` at `major.minor` is kept as, or the sentinel.
pub open spec fn gate_spec(name: Seq<u8>, major: u32, minor: u32) -> NormalizedUa {
    let f = family_of(name);
    if supported(f, major, minor) {
        NormalizedUa { family: f, major, minor, patch: 0 }
    } else {
        sentinel()
    }
}

/// The text form `family/major.minor.patch`.
pub open spec fn render_spec(n: NormalizedUa) -> Seq<u8> {
    code(n.family) + seq![47u8] + decimal(n.major as nat) + seq![46u8] + decimal(
        n.minor as nat,
    ) + seq![46u8] + decimal(n.patch as nat)
}

fn first_digit(n: u32) -> (r: u32)
    ensures
        r == leading_digit(n as nat),
{
    let mut m: u32 = n;
    while m >= 10
        invariant
            leading_digit(n as nat) == leading_digit(m as nat),
        decreases m,
    {
        m = m / 10;
    }
    m
}

/// The lowest supported major version of a family gated on the major alone.
pub fn minimum_major(f: Family) -> (r: Option<u32>)
    ensures
        r == min_major(f),
{
    match f {
        Family::Edge => Some(0),
        Family::EdgeMob => Some(0),
        Family::Ie => Some(8),
        Family::IeMob => Some(11),
        Family::Chrome => Some(29),
        Family::Safari => Some(9),
        Family::IosSaf => Some(9),
        Family::IosChr => Some(9),
        Family::Firefox => Some(38),
        Family::FirefoxMob => Some(38),
        Family::Opera => Some(33),
        Family::OpMob => Some(10),
        Family::OpMini => Some(5),
        Family::Bb => Some(6),
        Family::SamsungMob => Some(4),
        Family::Android => None,
        Family::Other => None,
    }
}

/// Whether version `major.minor` of family `f` is supported.
pub fn is_supported(f: Family, major: u32, minor: u32) -> (r: bool)
    ensures
        r == supported(f, major, minor),
{
    match f {
        Family::Android => major > 4 || (major == 4 && first_digit(minor) >= 3),
        Family::Other => false,
        _ => match minimum_major(f) {
            Some(m) => major >= m,
            None => false,
        },
    }
}

/// Keeps a supported `name` at `major.minor` (patch 0) and collapses anything
/// else, unknown family names included, to the sentinel `other/0.0.0`.
pub fn gate(name: &[u8], major: u32, minor: u32) -> (r: NormalizedUa)
    ensures
        r == gate_spec(name@, major, minor),
        well_formed(r),
{
    let f = family_named(name);
    if is_supported(f, major, minor) {
        NormalizedUa { family: f, major, minor, patch: 0 }
    } else {
        NormalizedUa { family: Family::Other, major: 0, minor: 0, patch: 0 }
    }
}

impl NormalizedUa {
    /// The sentinel `other/0.0.0`.
    pub fn other() -> (r: NormalizedUa)
        ensures
            r == sentinel(),
    {
        NormalizedUa { family: Family::Other, major: 0, minor: 0, patch: 0 }
    }

    /// The text form `family/major.minor.patch`, as sent upstream.
    pub fn render(&self) -> (r: Vec<u8>)
        ensures
            r@ == render_spec(*self),
    {
        let mut out = copy_str(self.family.name());
        out.push(47u8);
        push_decimal(&mut out, self.major);
        out.push(46u8);
        push_decimal(&mut out, self.minor);
        out.push(46u8);
        push_decimal(&mut out, self.patch);
        out
    }
}

} // verus!
