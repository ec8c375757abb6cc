//! The result record returned across the foreign boundary.
//!
//! The record carries exactly two 64-bit values, the performance value and
//! the difficulty rating.  Inside the verified library each is held as the
//! IEEE-754 bit pattern of the engine's 64-bit result, so that the transfer
//! from the engine's attributes to the record is bit-exact by contract; the
//! host converts the patterns to its native 64-bit floating values with a
//! lossless bit cast on its side of the boundary.

use vstd::prelude::*;

verus! {

/// The flat record handed back to the foreign caller: the performance value
/// and the difficulty rating, each as the IEEE-754 bit pattern of a 64-bit
/// floating value.
#[derive(Clone, Copy, PartialEq, Eq, Structural, Debug)]
pub struct CalculatePerformanceResult {
    /// Bit pattern of the 64-bit performance value.
    pub pp_bits: u64,
    /// Bit pattern of the 64-bit difficulty rating.
    pub stars_bits: u64,
}

impl Default for CalculatePerformanceResult {
    /// The all-zero record; the zero bit pattern is the bit pattern of the
    /// floating value 0.0.
    fn default() -> (r: Self)
        ensures
            r.pp_bits == 0,
            r.stars_bits == 0,
    {
        CalculatePerformanceResult { pp_bits: 0, stars_bits: 0 }
    }
}

impl CalculatePerformanceResult {
    /// Builds the record from the engine's performance attributes, given as
    /// the bit patterns of the two 64-bit values the attributes expose.  The
    /// record holds those patterns unchanged: no precision is lost between
    /// the engine's answer and what crosses the boundary.
    pub fn from_attributes(pp_bits: u64, stars_bits: u64) -> (r: Self)
        ensures
            r == (CalculatePerformanceResult { pp_bits, stars_bits }),
    {
        CalculatePerformanceResult { pp_bits, stars_bits }
    }
}

/// The record is a lossless carrier: building it from two bit patterns and
/// reading its fields gives back exactly the patterns that were put in, so a
/// 64-bit value round-trips through the record bit for bit.
pub proof fn lemma_record_round_trip(pp_bits: u64, stars_bits: u64)
    ensures
        (CalculatePerformanceResult { pp_bits, stars_bits }).pp_bits == pp_bits,
        (CalculatePerformanceResult { pp_bits, stars_bits }).stars_bits == stars_bits,
{
}

} // verus!
