//! The ways in which a conversion between points and chips fails.

use vstd::prelude::*;

verus! {

/// Why a conversion between a point and a chip did not produce a value.
#[derive(Debug, Clone, Copy, PartialEq, Eq, Structural)]
pub enum ConversionError {
    /// A coordinate of the point lies outside the grid.
    OutOfRange,
    /// The identifier of the chip is not exactly two characters long, or its
    /// first character is no column letter, or its second is no row token.
    LookupMiss,
}

} // verus!
