//! Placeholder resonant filter.
//!
//! The filter's shaping stage is not designed yet: processing passes
//! the input through unchanged, and the contract says exactly that, so
//! no caller can mistake it for a working filter. Cutoff is in hertz,
//! resonance in `UNIT` fixed point.

use vstd::prelude::*;
use crate::units::UNIT;

verus! {

/// A resonant filter slot, currently transparent.
pub struct SergeFilter {
    pub cutoff: u32,
    pub resonance: u32,
}

impl SergeFilter {
    /// A mid-band filter at half resonance.
    pub fn new() -> (f: SergeFilter)
        ensures
            f.cutoff == 1000,
            f.resonance == UNIT / 2,
    {
        SergeFilter { cutoff: 1000, resonance: UNIT / 2 }
    }

    /// Pass one value through; the filter does not color it.
    pub fn process(&mut self, input: i64) -> (r: i64)
        ensures
            r == input,
            *final(self) == *old(self),
    {
        input
    }
}

impl Default for SergeFilter {
    /// Same as [`SergeFilter::new`].
    fn default() -> (f: Self)
        ensures
            f.cutoff == 1000,
            f.resonance == UNIT / 2,
    {
        SergeFilter::new()
    }
}

} // verus!
