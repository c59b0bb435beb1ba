//! Link-related value enums.

use vstd::prelude::*;

verus! {

/// One of the two utilization counters a link provides.
#[derive(Debug, Clone, Copy, PartialEq, Eq, Hash)]
pub enum Counter {
    Zero,
    One,
}

impl Counter {
    /// The vendor's integer code for this counter.
    pub open spec fn spec_as_c(&self) -> u32 {
        match self {
            Counter::Zero => 0,
            Counter::One => 1,
        }
    }

    /// Returns the vendor's integer code for this counter.
    pub fn as_c(&self) -> (r: u32)
        ensures
            r == self.spec_as_c(),
    {
        match self {
            Counter::Zero => 0,
            Counter::One => 1,
        }
    }
}

} // verus!
