use vstd::prelude::*;

verus! {

/// The single error kind a path operation surfaces. Each variant carries the
/// diagnostic for one way the modelled geometry engine can refuse an
/// operation.
#[derive(Clone, Copy, PartialEq, Eq, Structural, Debug)]
pub enum EngineError {
    /// A segment that extends the open subpath was appended to a path that
    /// has no current point yet.
    NoCurrentPoint,
    /// A coordinate produced by the operation does not fit the coordinate
    /// type, so the result cannot be stored.
    NumericOverflow,
}

} // verus!
