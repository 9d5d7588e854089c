use last_value_cell::error::AggregatorError;
use last_value_cell::number::Number;
use last_value_cell::slot::{DataPoint, Slot};
use last_value_cell::timestamp::Timestamp;

fn point(value: u64, nanos: i128) -> DataPoint {
    DataPoint { value: Number::from_u64(value), timestamp: Timestamp::from_nanos(nanos) }
}

fn holding(value: u64, nanos: i128) -> Slot {
    let mut slot = Slot::new();
    slot.record(Timestamp::from_nanos(nanos), Number::from_u64(value));
    slot
}

#[test]
fn slot_record_then_read_gives_the_point_back() {
    let mut slot = Slot::new();
    slot.record(Timestamp::from_nanos(1_700_000_000), Number::from_u64(42));
    assert_eq!(slot.read(), Ok(point(42, 1_700_000_000)));
    // a read takes nothing away
    assert_eq!(slot.read(), Ok(point(42, 1_700_000_000)));
}

#[test]
fn slot_record_overwrites_whatever_was_there() {
    let mut slot = holding(1, 500);
    slot.record(Timestamp::from_nanos(20), Number::from_u64(2));
    assert_eq!(slot.read(), Ok(point(2, 20)));
}

#[test]
fn slot_fresh_has_no_data() {
    let slot = Slot::new();
    assert_eq!(slot.read(), Err(AggregatorError::NoDataCollected));
}

#[test]
fn slot_fold_takes_the_newer_source() {
    let mut a = holding(3, 100);
    let mut b = holding(7, 200);
    a.fold(&mut b);
    assert_eq!(a.read(), Ok(point(7, 200)));
    assert_eq!(b.read(), Err(AggregatorError::NoDataCollected));
}

#[test]
fn slot_fold_keeps_the_newer_destination() {
    let mut a = holding(3, 100);
    let mut b = holding(7, 50);
    a.fold(&mut b);
    assert_eq!(a.read(), Ok(point(3, 100)));
    assert_eq!(b.read(), Ok(point(7, 50)));
}

#[test]
fn slot_fold_into_empty_takes_the_source() {
    let mut a = Slot::new();
    let mut b = holding(5, 10);
    a.fold(&mut b);
    assert_eq!(a.read(), Ok(point(5, 10)));
    assert_eq!(b.read(), Err(AggregatorError::NoDataCollected));
}

#[test]
fn slot_fold_of_two_empty_slots_leaves_both_empty() {
    let mut a = Slot::new();
    let mut b = Slot::new();
    a.fold(&mut b);
    assert_eq!(a.read(), Err(AggregatorError::NoDataCollected));
    assert_eq!(b.read(), Err(AggregatorError::NoDataCollected));
}

#[test]
fn slot_fold_from_empty_source_changes_nothing() {
    let mut a = holding(3, 100);
    let mut b = Slot::new();
    a.fold(&mut b);
    assert_eq!(a.read(), Ok(point(3, 100)));
    assert_eq!(b.read(), Err(AggregatorError::NoDataCollected));
}

#[test]
fn slot_fold_on_a_tie_favours_the_destination() {
    let mut a = holding(3, 100);
    let mut b = holding(7, 100);
    a.fold(&mut b);
    assert_eq!(a.read(), Ok(point(3, 100)));
    assert_eq!(b.read(), Ok(point(7, 100)));
}

#[test]
fn slot_fold_compares_times_before_the_epoch() {
    let mut a = holding(3, -200);
    let mut b = holding(7, -100);
    a.fold(&mut b);
    assert_eq!(a.read(), Ok(point(7, -100)));
    assert_eq!(b.read(), Err(AggregatorError::NoDataCollected));
}

#[test]
fn slot_handoff_moves_the_point() {
    let mut a = holding(9, 1);
    let mut b = Slot::new();
    a.handoff(&mut b);
    assert_eq!(b.read(), Ok(point(9, 1)));
    assert_eq!(a.read(), Err(AggregatorError::NoDataCollected));
}

#[test]
fn slot_handoff_replaces_an_older_checkpoint() {
    let mut a = holding(9, 1);
    let mut b = holding(4, 900);
    a.handoff(&mut b);
    assert_eq!(b.read(), Ok(point(9, 1)));
    assert_eq!(a.read(), Err(AggregatorError::NoDataCollected));
}

#[test]
fn slot_handoff_from_empty_keeps_the_destination() {
    let mut a = Slot::new();
    let mut b = holding(4, 900);
    a.handoff(&mut b);
    assert_eq!(b.read(), Ok(point(4, 900)));
    assert_eq!(a.read(), Err(AggregatorError::NoDataCollected));
}

#[test]
fn slot_last_of_many_records_is_read() {
    let mut slot = Slot::new();
    let mut i: u64 = 0;
    while i < 10 {
        slot.record(Timestamp::from_nanos(1000 - i as i128), Number::from_u64(i));
        i += 1;
    }
    assert_eq!(slot.read(), Ok(point(9, 991)));
}
