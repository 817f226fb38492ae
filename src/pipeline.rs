//! The normalisation pipeline: strip wrapper tokens, try the shortcut parser,
//! otherwise hand the stripped text to a generic parser; then canonicalise
//! the family and version and pass them through the support gate.

use vstd::prelude::*;
use crate::family::{canonical_spec, canonicalize};
use crate::shortcut::{direct_spec, raw_view, try_direct, RawAgent};
use crate::support::{gate, gate_spec, sentinel, well_formed, NormalizedUa};
use crate::version::{parse_version, version_value};
use crate::wrapper::{strip, strip_spec};

verus! {

/// Why a user agent could not be normalised.
#[derive(Clone, Copy, PartialEq, Eq, Structural, Debug)]
pub enum NormalizeError {
    /// A major or minor version is not a run of decimal digits that fits in 32 bits.
    UnparsableVersion,
}

/// A version given as optional text: absent reads as 0.
pub open spec fn opt_version(v: Option<Seq<u8>>) -> Option<u32> {
    match v {
        Some(s) => version_value(s),
        None => Some(0),
    }
}

/// What a parsed family and version normalise to.
pub open spec fn resolve_spec(
    family: Seq<u8>,
    major: Option<Seq<u8>>,
    minor: Option<Seq<u8>>,
) -> Result<NormalizedUa, NormalizeError> {
    match (opt_version(major), opt_version(minor)) {
        (Some(a), Some(b)) => {
            let c = canonical_spec(family, a, b);
            Ok(gate_spec(c.0, c.1, c.2))
        },
        _ => Err(NormalizeError::UnparsableVersion),
    }
}

/// The outcome for `ua` when no generic parser is needed: the empty string,
/// or a stripped text that the shortcut parser reads. `None` otherwise.
pub open spec fn planned(ua: Seq<u8>) -> Option<Result<NormalizedUa, NormalizeError>> {
    if ua.len() == 0 {
        Some(Ok(sentinel()))
    } else {
        match direct_spec(strip_spec(ua)) {
            Some((f, a, b)) => Some(resolve_spec(f, a, b)),
            None => None,
        }
    }
}

/// What the pipeline gives for `ua`, where `fallback` is what the generic
/// parser makes of the stripped text.
pub open spec fn normalize_spec(
    ua: Seq<u8>,
    fallback: (Seq<u8>, Option<Seq<u8>>, Option<Seq<u8>>),
) -> Result<NormalizedUa, NormalizeError> {
    match planned(ua) {
        Some(r) => r,
        None => resolve_spec(fallback.0, fallback.1, fallback.2),
    }
}

/// The first step of normalising a user agent.
pub enum Plan {
    /// The outcome is known without the generic parser.
    Resolved(Result<NormalizedUa, NormalizeError>),
    /// The generic parser is to read this stripped text; its result goes to
    /// [`from_parsed`].
    NeedsParser(Vec<u8>),
}

fn read_version(v: &Option<Vec<u8>>) -> (r: Option<u32>)
    ensures
        r == opt_version(crate::shortcut::opt_view(*v)),
{
    match v {
        Some(s) => parse_version(s.as_slice()),
        None => Some(0),
    }
}

/// Normalises a parsed family and version: reads the version numbers (an
/// absent one is 0), canonicalises, and gates.
pub fn from_parsed(agent: &RawAgent) -> (r: Result<NormalizedUa, NormalizeError>)
    ensures
        r == resolve_spec(agent.family@, raw_view(agent).1, raw_view(agent).2),
        r matches Ok(n) ==> well_formed(n),
{
    let a = read_version(&agent.major);
    let b = read_version(&agent.minor);
    match (a, b) {
        (Some(a), Some(b)) => {
            let c = canonicalize(agent.family.as_slice(), a, b);
            Ok(gate(c.family.as_slice(), c.major, c.minor))
        },
        _ => Err(NormalizeError::UnparsableVersion),
    }
}

/// Starts normalising `ua`: the empty string is `other/0.0.0`; otherwise
/// wrapper tokens are stripped and the shortcut parser is tried on the rest.
/// When it does not match, the stripped text is handed back for the generic
/// parser.
pub fn plan(ua: &[u8]) -> (r: Plan)
    ensures
        match r {
            Plan::Resolved(x) => planned(ua@) == Some(x),
            Plan::NeedsParser(t) => planned(ua@) is None && t@ == strip_spec(ua@),
        },
{
    if ua.len() == 0 {
        return Plan::Resolved(Ok(NormalizedUa::other()));
    }
    let stripped = strip(ua);
    match try_direct(stripped.as_slice()) {
        Some(agent) => Plan::Resolved(from_parsed(&agent)),
        None => Plan::NeedsParser(stripped),
    }
}

/// Normalises `ua`, where `fallback` is what the generic parser makes of the
/// stripped text; it is used only when the shortcut parser does not match.
pub fn normalize_with(ua: &[u8], fallback: &RawAgent) -> (r: Result<NormalizedUa, NormalizeError>)
    ensures
        r == normalize_spec(ua@, raw_view(fallback)),
        r matches Ok(n) ==> well_formed(n),
{
    match plan(ua) {
        Plan::Resolved(x) => {
            proof {
                lemma_planned_well_formed(ua@);
            }
            x
        },
        Plan::NeedsParser(_) => from_parsed(fallback),
    }
}

/// Every outcome of the pipeline keeps the sentinel invariant.
pub proof fn lemma_planned_well_formed(ua: Seq<u8>)
    ensures
        planned(ua) matches Some(Ok(n)) ==> well_formed(n),
{
}

} // verus!
