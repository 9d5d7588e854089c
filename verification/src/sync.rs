//! The lock around a cell's slot, the clock, and the ambient context: what
//! the cell takes from the standard library and from the telemetry API. No
//! contract in this file is proved; each says what it takes on trust.

use vstd::prelude::*;
use std::sync::{Mutex, MutexGuard};
use std::time::SystemTime;
use opentelemetry_api::metrics::MetricsError;
use opentelemetry_api::Context;
use crate::slot::Slot;
use crate::timestamp::EpochOffset;

verus! {

#[verifier::external_type_specification]
#[verifier::external_body]
#[verifier::reject_recursive_types(T)]
pub struct ExMutex<T: ?Sized>(Mutex<T>);

#[verifier::external_type_specification]
#[verifier::external_body]
#[verifier::reject_recursive_types(T)]
pub struct ExMutexGuard<'a, T: ?Sized + 'a>(MutexGuard<'a, T>);

#[verifier::external_type_specification]
#[verifier::external_body]
pub struct ExSystemTime(SystemTime);

#[verifier::external_type_specification]
#[verifier::external_body]
pub struct ExMetricsError(MetricsError);

#[verifier::external_type_specification]
#[verifier::external_body]
pub struct ExContext(Context);

/// The mutex that a guard keeps locked. In contracts two mutexes are equal
/// exactly when they are one and the same object: what lies behind a mutex is
/// no part of its value.
pub uninterp spec fn locked_by(guard: MutexGuard<'_, Slot>) -> Mutex<Slot>;

/// The slot that a mutex was created around. What lies behind a mutex now
/// depends on who held its lock since; what it was created with does not.
pub uninterp spec fn created_around(mutex: Mutex<Slot>) -> Slot;

/// The distance of a system time from the Unix epoch.
pub uninterp spec fn epoch_offset_of(time: SystemTime) -> EpochOffset;

/// `Mutex::new`: a fresh, unlocked mutex around `slot`.
#[verifier::external_body]
pub(crate) fn new_mutex(slot: Slot) -> (mutex: Mutex<Slot>)
    ensures
        created_around(mutex) == slot,
{
    Mutex::new(slot)
}

/// `std::ptr::eq` on two mutexes: whether the two references name one and the
/// same object.
#[verifier::external_body]
pub(crate) fn same_mutex(a: &Mutex<Slot>, b: &Mutex<Slot>) -> (same: bool)
    ensures
        same == (*a == *b),
{
    std::ptr::eq(a, b)
}

/// `<` on the addresses that `std::ptr::from_ref` gives for two mutexes:
/// whether `a` lies below `b` in memory. Nothing is claimed of the answer; an
/// address is no property of a value.
#[verifier::external_body]
pub(crate) fn address_below(a: &Mutex<Slot>, b: &Mutex<Slot>) -> bool {
    std::ptr::from_ref(a) < std::ptr::from_ref(b)
}

/// `Mutex::lock`, with the poisoning error turned into the telemetry API's
/// `MetricsError` by that crate's `From<PoisonError<_>>`. The call blocks
/// until the lock is free, and in a thread that already holds the lock it
/// does not return. So the caller names the guard that it holds, if any, and
/// that guard must belong to another mutex. The guard that comes back keeps
/// `mutex` locked. Whether the lock is poisoned is not foretold.
#[verifier::external_body]
pub(crate) fn lock<'a>(mutex: &'a Mutex<Slot>, held: Option<&MutexGuard<'_, Slot>>) -> (r: Result<
    MutexGuard<'a, Slot>,
    MetricsError,
>)
    requires
        held matches Some(guard) ==> locked_by(*guard) != *mutex,
    ensures
        r matches Ok(guard) ==> locked_by(guard) == *mutex,
{
    mutex.lock().map_err(MetricsError::from)
}

/// `DerefMut::deref_mut` on a guard: the slot behind the lock, for as long as
/// the guard is borrowed. What the slot holds is whatever the last holder of
/// the lock left in it.
#[verifier::external_body]
pub(crate) fn slot_of<'g>(guard: &'g mut MutexGuard<'_, Slot>) -> &'g mut Slot {
    &mut *guard
}

/// `opentelemetry_api::time::now`: the system clock's current time.
#[verifier::external_body]
pub(crate) fn now() -> SystemTime {
    opentelemetry_api::time::now()
}

/// `Context::get::<SystemTime>`: the time that the context carries, if it
/// carries one.
#[verifier::external_body]
pub(crate) fn context_time(cx: &Context) -> Option<SystemTime> {
    cx.get::<SystemTime>().copied()
}

/// `SystemTime::duration_since` the Unix epoch, taken apart by
/// `Duration::as_secs` and `Duration::subsec_nanos`. The result depends on
/// the time alone. A time before the epoch comes back as the error's
/// duration, which is then greater than zero; the fraction of a `Duration` is
/// always less than a second.
#[verifier::external_body]
pub(crate) fn offset_from_epoch(time: &SystemTime) -> (offset: EpochOffset)
    ensures
        offset == epoch_offset_of(*time),
        offset.is_canonical(),
{
    match time.duration_since(SystemTime::UNIX_EPOCH) {
        Ok(after) => EpochOffset {
            before_epoch: false,
            secs: after.as_secs(),
            subsec_nanos: after.subsec_nanos(),
        },
        Err(early) => EpochOffset {
            before_epoch: true,
            secs: early.duration().as_secs(),
            subsec_nanos: early.duration().subsec_nanos(),
        },
    }
}

} // verus!
