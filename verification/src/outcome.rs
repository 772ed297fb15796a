//! Call outcomes and the result classifier.
//!
//! A wrapped call produces an [`Outcome`] in one of the three configured
//! shapes: a plain value, a `Result`-shaped value whose failure branch is
//! never cached, or an `Option`-shaped value whose absent branch is never
//! cached.  The classifier decides, per outcome, whether it is
//! cache-eligible and what the storable payload is.

use vstd::prelude::*;

verus! {

/// The shape of the wrapped function's return value, fixed at
/// configuration time.
#[derive(Clone, Copy, Debug, PartialEq, Eq, Structural)]
pub enum ResultShape {
    /// The whole value is the payload; every outcome is stored.
    Plain,
    /// `Result`-shaped: only the success branch is storable.
    ResultWrapped,
    /// `Option`-shaped: only the present branch is storable.
    OptionWrapped,
}

/// A payload as handed back to a caller, together with its hit marker.
///
/// The marker is `false` on a freshly computed value and is set to `true`
/// on a value served from the cache when hit flagging is configured.
#[derive(Clone, Copy, Debug, PartialEq, Eq, Structural)]
pub struct Return {
    pub value: u64,
    pub was_cached: bool,
}

/// The value a wrapped call produces, in its original shape.
#[derive(Clone, Copy, Debug, PartialEq, Eq, Structural)]
pub enum Outcome {
    /// A plain value.
    Plain(Return),
    /// The success branch of a `Result`-shaped call.
    Succeeded(Return),
    /// The failure branch of a `Result`-shaped call; `0` carries the
    /// caller's error code unchanged.
    Failed(u64),
    /// The present branch of an `Option`-shaped call.
    Present(Return),
    /// The absent branch of an `Option`-shaped call.
    Absent,
}

/// Whether an outcome belongs to the given return shape.
pub open spec fn matches_shape(o: Outcome, shape: ResultShape) -> bool {
    match shape {
        ResultShape::Plain => o is Plain,
        ResultShape::ResultWrapped => o is Succeeded || o is Failed,
        ResultShape::OptionWrapped => o is Present || o is Absent,
    }
}

/// The storable payload of an outcome: the inner value for a plain,
/// successful or present outcome, and nothing for a failure or an absence.
pub open spec fn spec_storable(o: Outcome) -> Option<u64> {
    match o {
        Outcome::Plain(r) => Some(r.value),
        Outcome::Succeeded(r) => Some(r.value),
        Outcome::Failed(_) => None,
        Outcome::Present(r) => Some(r.value),
        Outcome::Absent => None,
    }
}

/// The outcome served on a fresh cache hit: the stored payload re-wrapped
/// into the configured shape, with the hit marker set exactly when hit
/// flagging is configured.
pub open spec fn hit_outcome(shape: ResultShape, value: u64, flag_hits: bool) -> Outcome {
    match shape {
        ResultShape::Plain => Outcome::Plain(Return { value, was_cached: flag_hits }),
        ResultShape::ResultWrapped => Outcome::Succeeded(Return { value, was_cached: flag_hits }),
        ResultShape::OptionWrapped => Outcome::Present(Return { value, was_cached: flag_hits }),
    }
}

/// The hit marker carried by an outcome, if its shape carries one.
pub open spec fn spec_marker(o: Outcome) -> Option<bool> {
    match o {
        Outcome::Plain(r) => Some(r.was_cached),
        Outcome::Succeeded(r) => Some(r.was_cached),
        Outcome::Failed(_) => None,
        Outcome::Present(r) => Some(r.was_cached),
        Outcome::Absent => None,
    }
}

/// The result classifier: decides cache eligibility of an outcome and
/// extracts its storable payload.
pub fn storable(o: &Outcome) -> (r: Option<u64>)
    ensures
        r == spec_storable(*o),
{
    match o {
        Outcome::Plain(ret) => Some(ret.value),
        Outcome::Succeeded(ret) => Some(ret.value),
        Outcome::Failed(_) => None,
        Outcome::Present(ret) => Some(ret.value),
        Outcome::Absent => None,
    }
}

/// The hit marker of an outcome, if any; `None` for a failure or an
/// absence, which carry no marker.
pub fn marker(o: &Outcome) -> (r: Option<bool>)
    ensures
        r == spec_marker(*o),
{
    match o {
        Outcome::Plain(ret) => Some(ret.was_cached),
        Outcome::Succeeded(ret) => Some(ret.was_cached),
        Outcome::Failed(_) => None,
        Outcome::Present(ret) => Some(ret.was_cached),
        Outcome::Absent => None,
    }
}

} // verus!
