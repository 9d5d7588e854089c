//! Aggregation kinds and the ways an operation on a cell can fail.

use vstd::prelude::*;

verus! {

/// The kinds of aggregation a pipeline knows. The kind routes collected data
/// to its export encoding and decides whether two aggregators may be combined.
#[derive(Clone, Copy, Debug, PartialEq, Eq, Structural)]
pub enum AggregationKind {
    Sum,
    Histogram,
    LastValue,
}

/// Why an operation on a cell failed. Every failure is handed to the caller;
/// none is swallowed.
#[derive(Clone, Copy, Debug, PartialEq, Eq, Structural)]
pub enum AggregatorError {
    /// The cell was read while it held no measurement.
    NoDataCollected,
    /// The peer of a merge or a checkpoint is an aggregator of another kind.
    InconsistentAggregator { expected: AggregationKind, found: AggregationKind },
    /// The cell's lock was poisoned by a thread that panicked while holding it.
    LockFailure,
}

} // verus!
