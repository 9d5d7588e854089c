//! Points in time, counted in nanoseconds from the Unix epoch.

use vstd::prelude::*;

verus! {

/// Nanoseconds in one second.
pub const NANOS_PER_SEC: u32 = 1_000_000_000;

/// A point in time as the clock libraries report it: a whole number of
/// seconds and a fraction in nanoseconds, counted forwards or backwards from
/// the Unix epoch.
#[derive(Clone, Copy, Debug, PartialEq, Eq, Structural)]
pub struct EpochOffset {
    pub before_epoch: bool,
    pub secs: u64,
    pub subsec_nanos: u32,
}

impl EpochOffset {
    /// The signed distance from the epoch in nanoseconds.
    pub open spec fn signed_nanos(self) -> int {
        let magnitude = self.secs as int * (NANOS_PER_SEC as int) + self.subsec_nanos as int;
        if self.before_epoch {
            -magnitude
        } else {
            magnitude
        }
    }

    /// The fraction is less than a second, and the epoch itself is not
    /// written as a distance backwards.
    pub open spec fn is_canonical(self) -> bool {
        &&& self.subsec_nanos < NANOS_PER_SEC
        &&& self.before_epoch ==> self.secs > 0 || self.subsec_nanos > 0
    }
}

/// A point in time. Its view is the signed number of nanoseconds between the
/// Unix epoch and the point; later points have greater views.
#[derive(Clone, Copy, Debug, PartialEq, Eq, Structural)]
pub struct Timestamp {
    nanos: i128,
}

impl View for Timestamp {
    type V = int;

    closed spec fn view(&self) -> int {
        self.nanos as int
    }
}

impl Timestamp {
    /// The point `nanos` nanoseconds after the epoch (before it, if negative).
    pub fn from_nanos(nanos: i128) -> (t: Timestamp)
        ensures
            t@ == nanos,
    {
        Timestamp { nanos }
    }

    /// The signed number of nanoseconds from the epoch to this point.
    pub fn nanos(&self) -> (n: i128)
        ensures
            n == self@,
    {
        self.nanos
    }

    /// The point that lies at the given distance from the epoch.
    pub fn from_epoch_offset(offset: EpochOffset) -> (t: Timestamp)
        ensures
            t@ == offset.signed_nanos(),
    {
        let secs: i128 = offset.secs as i128;
        let frac: i128 = offset.subsec_nanos as i128;
        assert(secs * 1_000_000_000 <= 0xffff_ffff_ffff_ffff * 1_000_000_000) by (nonlinear_arith)
            requires
                0 <= secs <= 0xffff_ffff_ffff_ffff,
        ;
        let magnitude: i128 = secs * 1_000_000_000 + frac;
        if offset.before_epoch {
            Timestamp { nanos: -magnitude }
        } else {
            Timestamp { nanos: magnitude }
        }
    }

    /// The distance of this point from the epoch in seconds and nanoseconds,
    /// or `None` where the seconds do not fit in 64 bits.
    pub fn epoch_offset(&self) -> (r: Option<EpochOffset>)
        ensures
            match r {
                Some(offset) => offset.is_canonical() && offset.signed_nanos() == self@,
                None => self@ <= -Self::span() || self@ >= Self::span(),
            },
            r is Some <==> -Self::span() < self@ < Self::span(),
    {
        let before_epoch = self.nanos < 0;
        let magnitude: u128 = if before_epoch {
            (-(self.nanos + 1)) as u128 + 1
        } else {
            self.nanos as u128
        };
        let whole: u128 = magnitude / 1_000_000_000;
        let frac: u128 = magnitude % 1_000_000_000;
        if whole > 0xffff_ffff_ffff_ffff {
            None
        } else {
            Some(EpochOffset { before_epoch, secs: whole as u64, subsec_nanos: frac as u32 })
        }
    }

    /// The first distance from the epoch, in nanoseconds, whose seconds no
    /// longer fit in 64 bits.
    pub open spec fn span() -> int {
        0x1_0000_0000_0000_0000int * 1_000_000_000int
    }

    /// Whether this point is strictly later than `other`.
    pub fn is_after(&self, other: &Timestamp) -> (later: bool)
        ensures
            later == (self@ > other@),
    {
        self.nanos > other.nanos
    }
}

/// A point in time has one canonical distance from the epoch: two canonical
/// offsets of the same signed length are the same offset.
pub proof fn law_canonical_offset_is_unique(a: EpochOffset, b: EpochOffset)
    requires
        a.is_canonical(),
        b.is_canonical(),
        a.signed_nanos() == b.signed_nanos(),
    ensures
        a == b,
{
    let billion = NANOS_PER_SEC as int;
    let (sa, sb) = (a.secs as int, b.secs as int);
    assert(a.before_epoch == b.before_epoch);
    assert(sa * billion + a.subsec_nanos == sb * billion + b.subsec_nanos);
    assert(sa == sb) by (nonlinear_arith)
        requires
            sa * billion + a.subsec_nanos == sb * billion + b.subsec_nanos,
            0 <= a.subsec_nanos < billion,
            0 <= b.subsec_nanos < billion,
    ;
}

/// Later points have greater distances: the order of two offsets on the same
/// side of the epoch is the order of their seconds and then of their
/// fractions, reversed before the epoch.
pub proof fn law_offset_order(a: EpochOffset, b: EpochOffset)
    requires
        a.is_canonical(),
        b.is_canonical(),
        a.before_epoch == b.before_epoch,
    ensures
        a.signed_nanos() < b.signed_nanos() <==> if a.before_epoch {
            a.secs > b.secs || (a.secs == b.secs && a.subsec_nanos > b.subsec_nanos)
        } else {
            a.secs < b.secs || (a.secs == b.secs && a.subsec_nanos < b.subsec_nanos)
        },
{
    let billion = NANOS_PER_SEC as int;
    let (sa, sb) = (a.secs as int, b.secs as int);
    assert(sa < sb ==> sa * billion + billion <= sb * billion) by (nonlinear_arith)
        requires
            billion > 0,
    ;
    assert(sb < sa ==> sb * billion + billion <= sa * billion) by (nonlinear_arith)
        requires
            billion > 0,
    ;
}

} // verus!
