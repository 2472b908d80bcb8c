//! The side of a trade.
use vstd::prelude::*;

verus! {

/// The side that an order or a fill takes.
#[derive(Clone, Copy, Debug, PartialEq, Eq, Structural)]
pub enum PositionDirection {
    /// Buying the base asset.
    Long,
    /// Selling the base asset.
    Short,
}

impl Default for PositionDirection {
    fn default() -> (r: Self)
        ensures
            r == PositionDirection::Long,
    {
        PositionDirection::Long
    }
}

} // verus!
