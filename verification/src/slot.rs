//! The state of a last-value cell and its four transitions.
//!
//! A slot is either empty or holds one data point. Everything here is
//! sequential: the thread-safe cell applies these transitions while it holds
//! its lock.

use vstd::prelude::*;
use crate::error::AggregatorError;
use crate::number::Number;
use crate::timestamp::Timestamp;

verus! {

/// One measurement with the time it was taken. A point is written whole and
/// replaced whole; no operation changes one of its fields alone.
#[derive(Clone, Copy, Debug, PartialEq, Eq, Structural)]
pub struct DataPoint {
    pub value: Number,
    pub timestamp: Timestamp,
}

/// What a read of a slot with the given content returns.
pub open spec fn reading(content: Option<DataPoint>) -> Result<DataPoint, AggregatorError> {
    match content {
        Some(point) => Ok(point),
        None => Err(AggregatorError::NoDataCollected),
    }
}

/// Whether folding `source` into `destination` moves the source's point:
/// there is one, and the destination holds none or a strictly older one.
pub open spec fn fold_takes(destination: Option<DataPoint>, source: Option<DataPoint>) -> bool {
    match (destination, source) {
        (Some(kept), Some(offered)) => offered.timestamp@ > kept.timestamp@,
        (None, Some(_)) => true,
        (_, None) => false,
    }
}

/// The contents of destination and source, in this order, after `source` was
/// folded into `destination`.
pub open spec fn folded(destination: Option<DataPoint>, source: Option<DataPoint>) -> (
    Option<DataPoint>,
    Option<DataPoint>,
) {
    if fold_takes(destination, source) {
        (source, None)
    } else {
        (destination, source)
    }
}

/// The contents of source and destination, in this order, after the source
/// handed its point off to `destination`.
pub open spec fn handed_off(source: Option<DataPoint>, destination: Option<DataPoint>) -> (
    Option<DataPoint>,
    Option<DataPoint>,
) {
    match source {
        Some(_) => (None, source),
        None => (None, destination),
    }
}

/// The content of a slot after `point` was recorded in it.
pub open spec fn recorded(content: Option<DataPoint>, point: DataPoint) -> Option<DataPoint> {
    Some(point)
}

/// The content of a slot after the points of `writes` were recorded in it one
/// after the other, the first of them first.
pub open spec fn recorded_all(content: Option<DataPoint>, writes: Seq<DataPoint>) -> Option<
    DataPoint,
>
    decreases writes.len(),
{
    if writes.len() == 0 {
        content
    } else {
        recorded(recorded_all(content, writes.drop_last()), writes.last())
    }
}

/// The state of a last-value cell. Its view is the point it holds, if any.
#[derive(Debug)]
pub struct Slot {
    state: Option<DataPoint>,
}

impl View for Slot {
    type V = Option<DataPoint>;

    closed spec fn view(&self) -> Option<DataPoint> {
        self.state
    }
}

impl Slot {
    /// An empty slot.
    pub fn new() -> (slot: Slot)
        ensures
            slot@ is None,
    {
        Slot { state: None }
    }

    /// Overwrites the slot with a new point made of `value` and `timestamp`,
    /// whatever it held.
    pub fn record(&mut self, timestamp: Timestamp, value: Number)
        ensures
            final(self)@ == recorded(old(self)@, DataPoint { value, timestamp }),
    {
        self.state = Some(DataPoint { value, timestamp });
    }

    /// The point the slot holds. Fails with `NoDataCollected` on an empty
    /// slot. The slot is left as it is.
    pub fn read(&self) -> (r: Result<DataPoint, AggregatorError>)
        ensures
            r == reading(self@),
    {
        match self.state {
            Some(point) => Ok(point),
            None => Err(AggregatorError::NoDataCollected),
        }
    }

    /// Folds `source` into this slot: the more recent point wins. The
    /// source's point moves here, and the source becomes empty, where this
    /// slot is empty or its point is strictly older. On equal timestamps, and
    /// where the source is empty or older, both slots stay as they are.
    pub fn fold(&mut self, source: &mut Slot)
        ensures
            (final(self)@, final(source)@) == folded(old(self)@, old(source)@),
    {
        let takes = match (&self.state, &source.state) {
            (Some(kept), Some(offered)) => offered.timestamp.is_after(&kept.timestamp),
            (None, Some(_)) => true,
            _ => false,
        };
        if takes {
            self.state = source.state.take();
        }
    }

    /// Hands this slot's point off to `destination` and leaves this slot
    /// empty. Where this slot is empty, the destination keeps what it has.
    pub fn handoff(&mut self, destination: &mut Slot)
        ensures
            (final(self)@, final(destination)@) == handed_off(old(self)@, old(destination)@),
    {
        if self.state.is_some() {
            destination.state = self.state.take();
        }
    }
}

/// A read that follows a record returns exactly the value and the time that
/// were recorded, whatever the slot held before.
pub proof fn law_record_then_read(before: Option<DataPoint>, timestamp: Timestamp, value: Number)
    ensures
        reading(recorded(before, DataPoint { value, timestamp })) == Ok::<_, AggregatorError>(
            DataPoint { value, timestamp },
        ),
{
}

/// After any number of records, in whatever order the lock let them through,
/// a read returns one of the points that were written, whole: the one that was
/// recorded last. It never mixes the fields of two writes.
pub proof fn law_serial_records_leave_one_whole_point(
    before: Option<DataPoint>,
    writes: Seq<DataPoint>,
)
    requires
        writes.len() > 0,
    ensures
        reading(recorded_all(before, writes)) == Ok::<_, AggregatorError>(writes.last()),
        exists|i: int|
            0 <= i < writes.len() && reading(recorded_all(before, writes)) == Ok::<
                _,
                AggregatorError,
            >(#[trigger] writes[i]),
{
    assert(writes[writes.len() - 1] == writes.last());
}

/// With no record at all the slot is what it was: an empty slot stays empty.
pub proof fn law_no_record_no_data(writes: Seq<DataPoint>)
    ensures
        reading(recorded_all(None, writes)) is Err <==> writes.len() == 0,
{
}

/// On equal timestamps a fold favours the destination: it keeps its own
/// point, and the source is not cleared.
pub proof fn law_fold_tie_keeps_both(destination: DataPoint, source: DataPoint)
    requires
        destination.timestamp@ == source.timestamp@,
    ensures
        folded(Some(destination), Some(source)) == (Some(destination), Some(source)),
{
}

/// The most recent point wins: after a fold the destination holds a point if
/// either slot held one, and none of the points that the two slots held is
/// more recent than it.
pub proof fn law_fold_most_recent_wins(destination: Option<DataPoint>, source: Option<DataPoint>)
    ensures
        folded(destination, source).0 is Some <==> destination is Some || source is Some,
        destination matches Some(point) ==> folded(destination, source).0->Some_0.timestamp@
            >= point.timestamp@,
        source matches Some(point) ==> folded(destination, source).0->Some_0.timestamp@
            >= point.timestamp@,
{
}

/// A fold moves the source's point or leaves both slots as they are: where
/// the source is empty afterwards, its point is in the destination, and the
/// destination's own point is dropped only for a strictly more recent one.
pub proof fn law_fold_moves_ownership(destination: Option<DataPoint>, source: Option<DataPoint>)
    ensures
        folded(destination, source).1 is None ==> folded(destination, source).0 == (
            if source is Some { source } else { destination }
        ),
        folded(destination, source).1 is Some ==> folded(destination, source) == (
            destination,
            source,
        ),
        folded(destination, source).0 == destination || (folded(destination, source).0 == source
            && fold_takes(destination, source)),
{
}

/// Folding the same source a second time changes nothing.
pub proof fn law_fold_is_idempotent(destination: Option<DataPoint>, source: Option<DataPoint>)
    ensures
        folded(folded(destination, source).0, folded(destination, source).1) == folded(
            destination,
            source,
        ),
{
}

/// A handoff loses nothing and keeps nothing back: the source is empty
/// afterwards, and the destination holds the source's point where there was
/// one, else what it held before.
pub proof fn law_handoff_moves_the_point(source: Option<DataPoint>, destination: Option<DataPoint>)
    ensures
        handed_off(source, destination).0 is None,
        source is Some ==> handed_off(source, destination).1 == source,
        source is None ==> handed_off(source, destination).1 == destination,
{
}

} // verus!
