//! Plain value structs with no raw counterpart to translate.

use vstd::prelude::*;

verus! {

/// A link utilization counter's two directions, in the unit the counter was
/// configured to count.
#[derive(Debug, Clone, Copy, PartialEq, Eq, Hash)]
pub struct UtilizationCounter {
    /// The receive counter.
    pub receive: u64,
    /// The send counter.
    pub send: u64,
}

} // verus!
