//! The thread-safe last-value cell.
//!
//! A cell keeps its slot behind a mutex, so that producers may record while a
//! collector merges, checkpoints or reads. Every operation takes the lock,
//! applies one transition of the slot in a single step, and lets the lock go.
//! An operation on two cells holds both locks; it takes them in the order of
//! the cells' addresses, so that two threads that work on the same pair in
//! opposite directions cannot each wait for the other.

use vstd::prelude::*;
use std::sync::{Mutex, MutexGuard};
use std::time::SystemTime;
use opentelemetry_api::metrics::MetricsError;
use opentelemetry_api::Context;
use crate::error::{AggregationKind, AggregatorError};
use crate::number::Number;
use crate::slot::{DataPoint, Slot};
use crate::sync::{
    address_below,
    context_time,
    created_around,
    epoch_offset_of,
    lock,
    locked_by,
    new_mutex,
    now,
    offset_from_epoch,
    same_mutex,
    slot_of,
};
use crate::timestamp::Timestamp;

verus! {

/// Keeps the last value recorded for one instrument.
#[derive(Debug)]
pub struct LastValueAggregator {
    inner: Mutex<Slot>,
}

/// The aggregators a pipeline holds, told apart by kind. Only the last-value
/// aggregator keeps its state in this library; the other kinds stand for
/// aggregators that a cell can be offered but cannot be combined with.
#[derive(Debug)]
pub enum Aggregator {
    Sum,
    Histogram,
    LastValue(LastValueAggregator),
}

/// Creates a new, empty `LastValueAggregator`.
pub fn last_value() -> (cell: LastValueAggregator)
    ensures
        cell.created_with() is None,
{
    LastValueAggregator { inner: new_mutex(Slot::new()) }
}

/// The point in time that the clock libraries' `time` stands for: the one at
/// the time's distance from the Unix epoch.
fn timestamp_of(time: &SystemTime) -> (stamp: Timestamp)
    ensures
        stamp@ == epoch_offset_of(*time).signed_nanos(),
{
    Timestamp::from_epoch_offset(offset_from_epoch(time))
}

/// The time a write is stamped with: the caller's own, where it gave one,
/// else the clock's, which is read only then.
fn resolve_timestamp(explicit: Option<Timestamp>) -> (stamp: Timestamp)
    ensures
        explicit matches Some(given) ==> stamp == given,
{
    match explicit {
        Some(given) => given,
        None => timestamp_of(&now()),
    }
}

/// What a merge or a checkpoint with the peer `other` may return: with a
/// last-value peer success or a lock failure, with any other peer the
/// mismatch of the two kinds and nothing else.
pub open spec fn pair_outcome(other: Aggregator, r: Result<(), AggregatorError>) -> bool {
    match other {
        Aggregator::LastValue(_) => r is Ok || r == Err::<(), _>(AggregatorError::LockFailure),
        _ => r == Err::<(), _>(
            AggregatorError::InconsistentAggregator {
                expected: AggregationKind::LastValue,
                found: other.spec_kind(),
            },
        ),
    }
}

impl Aggregator {
    /// The kind of this aggregator.
    pub open spec fn spec_kind(self) -> AggregationKind {
        match self {
            Aggregator::Sum => AggregationKind::Sum,
            Aggregator::Histogram => AggregationKind::Histogram,
            Aggregator::LastValue(_) => AggregationKind::LastValue,
        }
    }

    /// The kind of this aggregator.
    pub fn kind(&self) -> (kind: AggregationKind)
        ensures
            kind == self.spec_kind(),
    {
        match self {
            Aggregator::Sum => AggregationKind::Sum,
            Aggregator::Histogram => AggregationKind::Histogram,
            Aggregator::LastValue(_) => AggregationKind::LastValue,
        }
    }

    /// The last-value cell, where this aggregator is one.
    pub fn as_last_value(&self) -> (cell: Option<&LastValueAggregator>)
        ensures
            match *self {
                Aggregator::LastValue(inner) => cell == Some(&inner),
                _ => cell is None,
            },
    {
        match self {
            Aggregator::LastValue(inner) => Some(inner),
            _ => None,
        }
    }
}

/// What the cell makes of the lock's answer: the guard where the lock was
/// taken, and `LockFailure` where it was found poisoned.
fn guard_or_failure<'a>(outcome: Result<MutexGuard<'a, Slot>, MetricsError>) -> (r: Result<
    MutexGuard<'a, Slot>,
    AggregatorError,
>)
    ensures
        match outcome {
            Ok(guard) => r matches Ok(same) && same == guard,
            Err(_) => r matches Err(e) && e == AggregatorError::LockFailure,
        },
{
    match outcome {
        Ok(guard) => Ok(guard),
        Err(_) => Err(AggregatorError::LockFailure),
    }
}

/// Takes the lock of `mutex` while the calling thread holds `held`, if
/// anything, and reports a poisoned lock as `LockFailure`.
fn acquire<'a>(mutex: &'a Mutex<Slot>, held: Option<&MutexGuard<'_, Slot>>) -> (r: Result<
    MutexGuard<'a, Slot>,
    AggregatorError,
>)
    requires
        held matches Some(guard) ==> locked_by(*guard) != *mutex,
    ensures
        match r {
            Ok(guard) => locked_by(guard) == *mutex,
            Err(e) => e == AggregatorError::LockFailure,
        },
{
    guard_or_failure(lock(mutex, held))
}

/// Takes the locks of two different mutexes, the one at the lower address
/// first, and hands the guards back in the order of the arguments. Where the
/// second lock fails, the first is let go.
fn lock_pair<'a>(first: &'a Mutex<Slot>, second: &'a Mutex<Slot>) -> (r: Result<
    (MutexGuard<'a, Slot>, MutexGuard<'a, Slot>),
    AggregatorError,
>)
    requires
        *first != *second,
    ensures
        match r {
            Ok((a, b)) => locked_by(a) == *first && locked_by(b) == *second,
            Err(e) => e == AggregatorError::LockFailure,
        },
{
    if address_below(first, second) {
        match acquire(first, None) {
            Ok(a) => match acquire(second, Some(&a)) {
                Ok(b) => Ok((a, b)),
                Err(e) => Err(e),
            },
            Err(e) => Err(e),
        }
    } else {
        match acquire(second, None) {
            Ok(b) => match acquire(first, Some(&b)) {
                Ok(a) => Ok((a, b)),
                Err(e) => Err(e),
            },
            Err(e) => Err(e),
        }
    }
}

impl LastValueAggregator {
    /// What the cell held when it was created. What it holds now lies behind
    /// its lock and is no part of its value: it is whatever the last thread
    /// that held the lock left there.
    pub closed spec fn created_with(self) -> Option<DataPoint> {
        created_around(self.inner)@
    }

    /// The kind tag of this cell: always `LastValue`.
    pub fn kind(&self) -> (kind: AggregationKind)
        ensures
            kind == AggregationKind::LastValue,
    {
        AggregationKind::LastValue
    }

    /// Records `number` with the time that `cx` carries or, where it carries
    /// none, with the current time. Fails only on a poisoned lock.
    pub fn update(&self, cx: &Context, number: &Number) -> (r: Result<(), AggregatorError>)
        ensures
            r is Ok || r == Err::<(), _>(AggregatorError::LockFailure),
    {
        let explicit = match context_time(cx) {
            Some(time) => Some(timestamp_of(&time)),
            None => None,
        };
        self.record(explicit, number)
    }

    /// Records `number` with `explicit_timestamp` or, where that is `None`,
    /// with the current time: under the lock, the slot is overwritten with the
    /// new point as a whole. Fails only on a poisoned lock.
    pub fn record(&self, explicit_timestamp: Option<Timestamp>, number: &Number) -> (r: Result<
        (),
        AggregatorError,
    >)
        ensures
            r is Ok || r == Err::<(), _>(AggregatorError::LockFailure),
    {
        match acquire(&self.inner, None) {
            Ok(mut guard) => {
                let stamp = resolve_timestamp(explicit_timestamp);
                slot_of(&mut guard).record(stamp, *number);
                Ok(())
            },
            Err(e) => Err(e),
        }
    }

    /// The value and the time of the point that the cell holds. Fails with
    /// `NoDataCollected` where it holds none, and on a poisoned lock. The cell
    /// is left as it is.
    pub fn last_value(&self) -> (r: Result<(Number, Timestamp), AggregatorError>)
        ensures
            match r {
                Ok(_) => true,
                Err(e) => e == AggregatorError::NoDataCollected || e
                    == AggregatorError::LockFailure,
            },
    {
        match acquire(&self.inner, None) {
            Ok(mut guard) => match slot_of(&mut guard).read() {
                Ok(point) => Ok((point.value, point.timestamp)),
                Err(e) => Err(e),
            },
            Err(e) => Err(e),
        }
    }

    /// Folds the state of `other` into this cell, holding both locks: the more
    /// recent point wins, as `Slot::fold` says. A peer of another kind is
    /// refused with `InconsistentAggregator` before any lock is taken.
    /// Folding a cell into itself changes nothing.
    pub fn merge(&self, other: &Aggregator) -> (r: Result<(), AggregatorError>)
        ensures
            pair_outcome(*other, r),
    {
        match other {
            Aggregator::LastValue(peer) => {
                if same_mutex(&self.inner, &peer.inner) {
                    match acquire(&self.inner, None) {
                        Ok(_) => Ok(()),
                        Err(e) => Err(e),
                    }
                } else {
                    match lock_pair(&self.inner, &peer.inner) {
                        Ok((mut mine, mut theirs)) => {
                            slot_of(&mut mine).fold(slot_of(&mut theirs));
                            Ok(())
                        },
                        Err(e) => Err(e),
                    }
                }
            },
            _ => Err(
                AggregatorError::InconsistentAggregator {
                    expected: AggregationKind::LastValue,
                    found: other.kind(),
                },
            ),
        }
    }

    /// Moves the point of this cell into `other`, holding both locks, and
    /// leaves this cell empty, as `Slot::handoff` says. A peer of another kind
    /// is refused with `InconsistentAggregator` before any lock is taken.
    /// Handing a cell's point to the cell itself changes nothing.
    pub fn synchronized_move(&self, other: &Aggregator) -> (r: Result<(), AggregatorError>)
        ensures
            pair_outcome(*other, r),
    {
        match other {
            Aggregator::LastValue(peer) => {
                if same_mutex(&self.inner, &peer.inner) {
                    match acquire(&self.inner, None) {
                        Ok(_) => Ok(()),
                        Err(e) => Err(e),
                    }
                } else {
                    match lock_pair(&self.inner, &peer.inner) {
                        Ok((mut mine, mut theirs)) => {
                            slot_of(&mut mine).handoff(slot_of(&mut theirs));
                            Ok(())
                        },
                        Err(e) => Err(e),
                    }
                }
            },
            _ => Err(
                AggregatorError::InconsistentAggregator {
                    expected: AggregationKind::LastValue,
                    found: other.kind(),
                },
            ),
        }
    }
}

} // verus!
