//! Browser family codes, the alias table that maps parser family names onto
//! them, the version remaps for forks, and the minimum supported versions.

use vstd::prelude::*;
use crate::text::{
    bytes_eq, ci_at, ci_match_at, copy_str, find_space_end, lit, lower_seq, space_end, to_lower,
};

verus! {

/// A canonical browser family code; `Other` is the sentinel.
#[derive(Clone, Copy, PartialEq, Eq, Structural, Debug)]
pub enum Family {
    Edge,
    EdgeMob,
    Ie,
    IeMob,
    Chrome,
    Safari,
    IosSaf,
    IosChr,
    Firefox,
    FirefoxMob,
    Android,
    Opera,
    OpMob,
    OpMini,
    Bb,
    SamsungMob,
    Other,
}

/// The short name of a family code.
pub open spec fn code(f: Family) -> Seq<u8> {
    lit(code_str(f))
}

pub open spec fn code_str(f: Family) -> &'static str {
    match f {
        Family::Edge => "edge",
        Family::EdgeMob => "edge_mob",
        Family::Ie => "ie",
        Family::IeMob => "ie_mob",
        Family::Chrome => "chrome",
        Family::Safari => "safari",
        Family::IosSaf => "ios_saf",
        Family::IosChr => "ios_chr",
        Family::Firefox => "firefox",
        Family::FirefoxMob => "firefox_mob",
        Family::Android => "android",
        Family::Opera => "opera",
        Family::OpMob => "op_mob",
        Family::OpMini => "op_mini",
        Family::Bb => "bb",
        Family::SamsungMob => "samsung_mob",
        Family::Other => "other",
    }
}

impl Family {
    /// The short name of this family code.
    pub fn name(&self) -> (r: &'static str)
        ensures
            r == code_str(*self),
    {
        match self {
            Family::Edge => "edge",
            Family::EdgeMob => "edge_mob",
            Family::Ie => "ie",
            Family::IeMob => "ie_mob",
            Family::Chrome => "chrome",
            Family::Safari => "safari",
            Family::IosSaf => "ios_saf",
            Family::IosChr => "ios_chr",
            Family::Firefox => "firefox",
            Family::FirefoxMob => "firefox_mob",
            Family::Android => "android",
            Family::Opera => "opera",
            Family::OpMob => "op_mob",
            Family::OpMini => "op_mini",
            Family::Bb => "bb",
            Family::SamsungMob => "samsung_mob",
            Family::Other => "other",
        }
    }
}

/// The family whose code is `name`; `Other` for any other name.
pub open spec fn family_of(name: Seq<u8>) -> Family {
    if name == code(Family::Edge) {
        Family::Edge
    } else if name == code(Family::EdgeMob) {
        Family::EdgeMob
    } else if name == code(Family::Ie) {
        Family::Ie
    } else if name == code(Family::IeMob) {
        Family::IeMob
    } else if name == code(Family::Chrome) {
        Family::Chrome
    } else if name == code(Family::Safari) {
        Family::Safari
    } else if name == code(Family::IosSaf) {
        Family::IosSaf
    } else if name == code(Family::IosChr) {
        Family::IosChr
    } else if name == code(Family::Firefox) {
        Family::Firefox
    } else if name == code(Family::FirefoxMob) {
        Family::FirefoxMob
    } else if name == code(Family::Android) {
        Family::Android
    } else if name == code(Family::Opera) {
        Family::Opera
    } else if name == code(Family::OpMob) {
        Family::OpMob
    } else if name == code(Family::OpMini) {
        Family::OpMini
    } else if name == code(Family::Bb) {
        Family::Bb
    } else if name == code(Family::SamsungMob) {
        Family::SamsungMob
    } else {
        Family::Other
    }
}

/// The family whose code is `name`; `Other` for any other name.
pub fn family_named(name: &[u8]) -> (r: Family)
    ensures
        r == family_of(name@),
{
    let all: [Family; 16] = [
        Family::Edge,
        Family::EdgeMob,
        Family::Ie,
        Family::IeMob,
        Family::Chrome,
        Family::Safari,
        Family::IosSaf,
        Family::IosChr,
        Family::Firefox,
        Family::FirefoxMob,
        Family::Android,
        Family::Opera,
        Family::OpMob,
        Family::OpMini,
        Family::Bb,
        Family::SamsungMob,
    ];
    let mut k: usize = 0;
    while k < 16
        invariant
            0 <= k <= 16,
            all@ == seq![
                Family::Edge,
                Family::EdgeMob,
                Family::Ie,
                Family::IeMob,
                Family::Chrome,
                Family::Safari,
                Family::IosSaf,
                Family::IosChr,
                Family::Firefox,
                Family::FirefoxMob,
                Family::Android,
                Family::Opera,
                Family::OpMob,
                Family::OpMini,
                Family::Bb,
                Family::SamsungMob,
            ],
            forall|j: int| 0 <= j < k ==> name@ != code(#[trigger] all@[j]),
        decreases 16 - k,
    {
        let f = all[k];
        if bytes_eq(name, f.name().as_bytes()) {
            return f;
        }
        k += 1;
    }
    Family::Other
}

/// `n` is `pre`, then any whitespace, then `tail`, up to its end.
pub open spec fn spaced_pair(n: Seq<u8>, pre: Seq<u8>, tail: Seq<u8>) -> bool {
    ci_at(n, 0, pre) && ci_at(n, space_end(n, pre.len() as int), tail) && space_end(
        n,
        pre.len() as int,
    ) + tail.len() == n.len()
}

fn spaced_pair_match(n: &[u8], pre: &str, tail: &str) -> (r: bool)
    ensures
        r == spaced_pair(n@, lit(pre), lit(tail)),
{
    let nl = n.len();
    if !ci_match_at(n, 0, pre.as_bytes()) {
        return false;
    }
    assert(pre.len() <= nl);
    let e = find_space_end(n, pre.len());
    ci_match_at(n, e, tail.as_bytes()) && tail.len() == n.len() - e
}

/// The family code that the (lower-case) parser family name `n` is an alias of.
#[verifier::opaque]
pub open spec fn alias_of(n: Seq<u8>) -> Option<Family> {
    if n == lit("blackberry") || spaced_pair(n, lit("blackberry"), lit("webkit")) {
        Some(Family::Bb)
    } else if n == lit("pale moon") || spaced_pair(n, lit("pale moon"), lit("(firefox variant)")) {
        Some(Family::Firefox)
    } else if n == lit("firefox mobile") {
        Some(Family::FirefoxMob)
    } else if n == lit("namoroka") {
        Some(Family::Firefox)
    } else if n == lit("shiretoko") {
        Some(Family::Firefox)
    } else if n == lit("minefield") {
        Some(Family::Firefox)
    } else if n == lit("alpha") {
        Some(Family::Firefox)
    } else if n == lit("beta") {
        Some(Family::Firefox)
    } else if n == lit("microb") {
        Some(Family::Firefox)
    } else if n == lit("mozilladeveloperpreview") {
        Some(Family::Firefox)
    } else if n == lit("iceweasel") {
        Some(Family::Firefox)
    } else if n == lit("opera tablet") {
        Some(Family::Opera)
    } else if n == lit("opera mobile") {
        Some(Family::OpMob)
    } else if n == lit("opera mini") {
        Some(Family::OpMini)
    } else if n == lit("chrome mobile webview") {
        Some(Family::Chrome)
    } else if n == lit("chrome mobile") {
        Some(Family::Chrome)
    } else if n == lit("chrome frame") {
        Some(Family::Chrome)
    } else if n == lit("chromium") {
        Some(Family::Chrome)
    } else if n == lit("headlesschrome") {
        Some(Family::Chrome)
    } else if n == lit("ie mobile") {
        Some(Family::IeMob)
    } else if n == lit("ie large screen") {
        Some(Family::Ie)
    } else if n == lit("internet explorer") {
        Some(Family::Ie)
    } else if n == lit("edge mobile") {
        Some(Family::EdgeMob)
    } else if n == lit("chrome mobile ios") {
        Some(Family::IosChr)
    } else if n == lit("mobile safari") {
        Some(Family::IosSaf)
    } else if n == lit("iphone") {
        Some(Family::IosSaf)
    } else if n == lit("iphone simulator") {
        Some(Family::IosSaf)
    } else if n == lit("mobile safari uiwebview") {
        Some(Family::IosSaf)
    } else if n == lit("mobile safari ui/wkwebview") {
        Some(Family::IosSaf)
    } else if n == lit("samsung internet") {
        Some(Family::SamsungMob)
    } else {
        None
    }
}

/// The family code that the (lower-case) parser family name `n` is an alias of.
pub fn alias_lookup(n: &[u8]) -> (r: Option<Family>)
    ensures
        r == alias_of(n@),
{
    reveal(alias_of);
    if bytes_eq(n, "blackberry".as_bytes()) || spaced_pair_match(n, "blackberry", "webkit") {
        Some(Family::Bb)
    } else if bytes_eq(n, "pale moon".as_bytes()) || spaced_pair_match(
        n,
        "pale moon",
        "(firefox variant)",
    ) {
        Some(Family::Firefox)
    } else if bytes_eq(n, "firefox mobile".as_bytes()) {
        Some(Family::FirefoxMob)
    } else if bytes_eq(n, "namoroka".as_bytes()) {
        Some(Family::Firefox)
    } else if bytes_eq(n, "shiretoko".as_bytes()) {
        Some(Family::Firefox)
    } else if bytes_eq(n, "minefield".as_bytes()) {
        Some(Family::Firefox)
    } else if bytes_eq(n, "alpha".as_bytes()) {
        Some(Family::Firefox)
    } else if bytes_eq(n, "beta".as_bytes()) {
        Some(Family::Firefox)
    } else if bytes_eq(n, "microb".as_bytes()) {
        Some(Family::Firefox)
    } else if bytes_eq(n, "mozilladeveloperpreview".as_bytes()) {
        Some(Family::Firefox)
    } else if bytes_eq(n, "iceweasel".as_bytes()) {
        Some(Family::Firefox)
    } else if bytes_eq(n, "opera tablet".as_bytes()) {
        Some(Family::Opera)
    } else if bytes_eq(n, "opera mobile".as_bytes()) {
        Some(Family::OpMob)
    } else if bytes_eq(n, "opera mini".as_bytes()) {
        Some(Family::OpMini)
    } else if bytes_eq(n, "chrome mobile webview".as_bytes()) {
        Some(Family::Chrome)
    } else if bytes_eq(n, "chrome mobile".as_bytes()) {
        Some(Family::Chrome)
    } else if bytes_eq(n, "chrome frame".as_bytes()) {
        Some(Family::Chrome)
    } else if bytes_eq(n, "chromium".as_bytes()) {
        Some(Family::Chrome)
    } else if bytes_eq(n, "headlesschrome".as_bytes()) {
        Some(Family::Chrome)
    } else if bytes_eq(n, "ie mobile".as_bytes()) {
        Some(Family::IeMob)
    } else if bytes_eq(n, "ie large screen".as_bytes()) {
        Some(Family::Ie)
    } else if bytes_eq(n, "internet explorer".as_bytes()) {
        Some(Family::Ie)
    } else if bytes_eq(n, "edge mobile".as_bytes()) {
        Some(Family::EdgeMob)
    } else if bytes_eq(n, "chrome mobile ios".as_bytes()) {
        Some(Family::IosChr)
    } else if bytes_eq(n, "mobile safari".as_bytes()) {
        Some(Family::IosSaf)
    } else if bytes_eq(n, "iphone".as_bytes()) {
        Some(Family::IosSaf)
    } else if bytes_eq(n, "iphone simulator".as_bytes()) {
        Some(Family::IosSaf)
    } else if bytes_eq(n, "mobile safari uiwebview".as_bytes()) {
        Some(Family::IosSaf)
    } else if bytes_eq(n, "mobile safari ui/wkwebview".as_bytes()) {
        Some(Family::IosSaf)
    } else if bytes_eq(n, "samsung internet".as_bytes()) {
        Some(Family::SamsungMob)
    } else {
        None
    }
}

/// A family name with its major and minor version, after alias and remap.
pub struct Canonical {
    pub family: Vec<u8>,
    pub major: u32,
    pub minor: u32,
}

/// The family name that parser family `n` (already lower-case) is known by.
pub open spec fn renamed(n: Seq<u8>) -> Seq<u8> {
    match alias_of(n) {
        Some(f) => code(f),
        None => n,
    }
}

/// The version remaps for forks whose numbering differs from their engine's.
pub open spec fn remap(n: Seq<u8>, major: u32, minor: u32) -> (Seq<u8>, u32, u32) {
    if n == lit("uc browser") && major == 9 && minor == 9 {
        (code(Family::Ie), 10, 0)
    } else if n == lit("phantomjs") {
        (code(Family::Safari), 5, 0)
    } else if n == code(Family::Opera) && 20 <= major <= 47 {
        (code(Family::Chrome), (major + 13) as u32, 0)
    } else if n == lit("googlebot") && major == 2 && minor == 1 {
        (code(Family::Chrome), 41, 0)
    } else {
        (n, major, minor)
    }
}

/// What canonicalising a raw parser family with its version gives.
pub open spec fn canonical_spec(raw: Seq<u8>, major: u32, minor: u32) -> (Seq<u8>, u32, u32) {
    remap(renamed(lower_seq(raw)), major, minor)
}

/// Maps a raw parser family name, ignoring ASCII case, to its canonical code
/// through the alias table (unknown names are kept, lower-cased), then applies
/// the version remaps.
pub fn canonicalize(raw: &[u8], major: u32, minor: u32) -> (r: Canonical)
    ensures
        (r.family@, r.major, r.minor) == canonical_spec(raw@, major, minor),
{
    let n = to_lower(raw);
    let n = match alias_lookup(n.as_slice()) {
        Some(f) => copy_str(f.name()),
        None => n,
    };
    if bytes_eq(n.as_slice(), "uc browser".as_bytes()) && major == 9 && minor == 9 {
        Canonical { family: copy_str(Family::Ie.name()), major: 10, minor: 0 }
    } else if bytes_eq(n.as_slice(), "phantomjs".as_bytes()) {
        Canonical { family: copy_str(Family::Safari.name()), major: 5, minor: 0 }
    } else if bytes_eq(n.as_slice(), Family::Opera.name().as_bytes()) && 20 <= major && major <= 47 {
        Canonical { family: copy_str(Family::Chrome.name()), major: major + 13, minor: 0 }
    } else if bytes_eq(n.as_slice(), "googlebot".as_bytes()) && major == 2 && minor == 1 {
        Canonical { family: copy_str(Family::Chrome.name()), major: 41, minor: 0 }
    } else {
        Canonical { family: n, major, minor }
    }
}

} // verus!
