//! Storage types for one channel of a pixel, and the integer helpers that the
//! color math leans on.
use num_traits::FromPrimitive;
use vstd::prelude::*;

verus! {

/// A channel storage type: an unsigned integer that widens losslessly to
/// `i32` and narrows back only when the value fits.
pub trait Sample: Copy + Sized {
    /// The integer that a sample holds.
    spec fn value(&self) -> int;

    /// The largest value the type can hold.
    spec fn max_value() -> int;

    /// Widens a sample to a signed 32-bit intermediate.
    fn widen(&self) -> (r: i32)
        ensures
            r as int == self.value(),
            0 <= r <= Self::max_value(),
    ;

    /// Narrows an intermediate back to the storage type; `None` when it does
    /// not fit.
    fn narrow(v: i32) -> (r: Option<Self>)
        ensures
            r is Some <==> 0 <= v <= Self::max_value(),
            r matches Some(s) ==> s.value() == v as int,
    ;

    /// Every storage type holds the full 8-bit range and fits 16 bits.
    proof fn lemma_range()
        ensures
            255 <= Self::max_value() <= 0xFFFF,
    ;
}

/// Relies on num_traits::FromPrimitive::from_i32 for u8: `Some` exactly when
/// the value lies in 0..=255, holding that value.
#[verifier::external_body]
fn u8_from_i32(v: i32) -> (r: Option<u8>)
    ensures
        r is Some <==> 0 <= v <= 255,
        r matches Some(s) ==> s as int == v as int,
{
    <u8 as FromPrimitive>::from_i32(v)
}

/// Relies on num_traits::FromPrimitive::from_i32 for u16: `Some` exactly when
/// the value lies in 0..=65535, holding that value.
#[verifier::external_body]
fn u16_from_i32(v: i32) -> (r: Option<u16>)
    ensures
        r is Some <==> 0 <= v <= 0xFFFF,
        r matches Some(s) ==> s as int == v as int,
{
    <u16 as FromPrimitive>::from_i32(v)
}

impl Sample for u8 {
    open spec fn value(&self) -> int {
        *self as int
    }

    open spec fn max_value() -> int {
        255
    }

    fn widen(&self) -> (r: i32) {
        *self as i32
    }

    fn narrow(v: i32) -> (r: Option<u8>) {
        u8_from_i32(v)
    }

    proof fn lemma_range() {
    }
}

impl Sample for u16 {
    open spec fn value(&self) -> int {
        *self as int
    }

    open spec fn max_value() -> int {
        0xFFFF
    }

    fn widen(&self) -> (r: i32) {
        *self as i32
    }

    fn narrow(v: i32) -> (r: Option<u16>) {
        u16_from_i32(v)
    }

    proof fn lemma_range() {
    }
}

/// `v` limited to the closed range `[lo, hi]`.
pub open spec fn clamp_spec(v: int, lo: int, hi: int) -> int {
    if v < lo {
        lo
    } else if v > hi {
        hi
    } else {
        v
    }
}

/// Relies on num_traits::clamp: `lo` below the range, `hi` above it, the
/// input itself inside it.
#[verifier::external_body]
pub(crate) fn clamp_i32(v: i32, lo: i32, hi: i32) -> (r: i32)
    requires
        lo <= hi,
    ensures
        r as int == clamp_spec(v as int, lo as int, hi as int),
{
    num_traits::clamp(v, lo, hi)
}

/// An arithmetic shift right by eight is floor division by 256.
pub proof fn lemma_shr8_floor(x: i32)
    ensures
        (x >> 8u32) as int == x as int / 256,
{
    let q = x >> 8u32;
    assert(q * 256 <= x && x < q * 256 + 256 && -8388608 <= q <= 8388607) by (bit_vector)
        requires
            q == x >> 8u32,
    ;
}

} // verus!
