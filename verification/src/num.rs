//! Floating-point values carried as their IEEE-754 bit patterns, so that the
//! library can hold them and compare them with exact integer reasoning.
use vstd::prelude::*;

verus! {

/// The double with bit pattern `b` compares below zero: a negative finite value or
/// negative infinity (neither `-0.0` nor a NaN).
pub open spec fn f64_bits_negative(b: u64) -> bool {
    0x8000_0000_0000_0000u64 < b && b <= 0xFFF0_0000_0000_0000u64
}

/// Whether the double with bit pattern `b` is below zero (`x < 0.0`).
pub fn f64_bits_is_negative(b: u64) -> (r: bool)
    ensures
        r == f64_bits_negative(b),
{
    0x8000_0000_0000_0000u64 < b && b <= 0xFFF0_0000_0000_0000u64
}

} // verus!
