//! The 128-bit register as two independent 64-bit lanes.

use vstd::prelude::*;

verus! {

/// A 128-bit register value, seen as two 64-bit integer lanes.
///
/// `lo` is lane 0 (bits 63:0) and `hi` is lane 1 (bits 127:64). Any pair of
/// lane values is a register value, so the type has no invariant.
#[derive(Clone, Copy, Debug, PartialEq, Eq, Structural)]
pub struct LanePair {
    pub lo: u64,
    pub hi: u64,
}

impl LanePair {
    /// Builds a register value from lane 0 and lane 1, in that order.
    pub fn new(lo: u64, hi: u64) -> (r: Self)
        ensures
            r.lo == lo,
            r.hi == hi,
    {
        LanePair { lo, hi }
    }

    /// The low 32 bits of lane 0: the first single-precision slot.
    pub open spec fn spec_low32(self) -> u32 {
        (self.lo & 0xffff_ffff) as u32
    }

    /// Returns the low 32 bits of lane 0.
    pub fn low32(self) -> (r: u32)
        ensures
            r == self.spec_low32(),
    {
        let lo: u64 = self.lo;
        let masked: u64 = lo & 0xffff_ffff;
        assert(masked <= 0xffff_ffff) by (bit_vector)
            requires
                masked == lo & 0xffff_ffff,
        ;
        masked as u32
    }
}

} // verus!
