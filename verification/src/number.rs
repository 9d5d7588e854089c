//! The measured value, kept as the 64 bits it was recorded with.

use vstd::prelude::*;

verus! {

/// A measurement. The cell stores and hands back its 64 bits and never
/// computes with them; what kind of number they encode is the instrument's
/// business. Its view is the bit pattern.
#[derive(Clone, Copy, Debug, PartialEq, Eq, Structural)]
pub struct Number {
    bits: u64,
}

impl View for Number {
    type V = u64;

    closed spec fn view(&self) -> u64 {
        self.bits
    }
}

impl Number {
    /// The measurement with the given bit pattern.
    pub fn from_bits(bits: u64) -> (n: Number)
        ensures
            n@ == bits,
    {
        Number { bits }
    }

    /// The bit pattern of the measurement.
    pub fn to_bits(&self) -> (bits: u64)
        ensures
            bits == self@,
    {
        self.bits
    }

    /// The measurement of an unsigned instrument.
    pub fn from_u64(value: u64) -> (n: Number)
        ensures
            n@ == value,
    {
        Number { bits: value }
    }

    /// The measurement read as an unsigned integer.
    pub fn to_u64(&self) -> (value: u64)
        ensures
            value == self@,
    {
        self.bits
    }

    /// The measurement of a signed instrument, in two's complement.
    pub fn from_i64(value: i64) -> (n: Number)
        ensures
            n@ == Self::encode_signed(value),
            Self::decode_signed(n@) == value,
    {
        proof {
            Self::signed_round_trip(value);
        }
        if value >= 0 {
            Number { bits: value as u64 }
        } else {
            let below: u64 = (-(value + 1)) as u64;
            Number { bits: u64::MAX - below }
        }
    }

    /// The measurement read as a signed integer, in two's complement.
    pub fn to_i64(&self) -> (value: i64)
        ensures
            value == Self::decode_signed(self@),
    {
        if self.bits <= 0x7fff_ffff_ffff_ffff {
            self.bits as i64
        } else {
            let below: u64 = u64::MAX - self.bits;
            -(below as i64) - 1
        }
    }

    /// The two's complement bit pattern of a signed integer.
    pub open spec fn encode_signed(value: i64) -> u64 {
        if value >= 0 {
            value as u64
        } else {
            (value + 0x1_0000_0000_0000_0000) as u64
        }
    }

    /// The signed integer that a bit pattern stands for in two's complement.
    pub open spec fn decode_signed(bits: u64) -> i64 {
        if bits <= 0x7fff_ffff_ffff_ffff {
            bits as i64
        } else {
            (bits - 0x1_0000_0000_0000_0000) as i64
        }
    }

    /// Decoding undoes encoding: no signed value is lost in the bit pattern.
    pub proof fn signed_round_trip(value: i64)
        ensures
            Self::decode_signed(Self::encode_signed(value)) == value,
    {
    }

    /// Encoding undoes decoding: every bit pattern stands for one signed value.
    pub proof fn bits_round_trip(bits: u64)
        ensures
            Self::encode_signed(Self::decode_signed(bits)) == bits,
    {
    }
}

} // verus!
