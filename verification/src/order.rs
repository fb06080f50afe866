//! The four outcomes of comparing two cells of the grid.

use vstd::prelude::*;

verus! {

/// The result of comparing two cells in the partial order of the grid.
///
/// Two cells need not be comparable: a cell that lies further right but
/// lower than another is neither less than, equal to, nor greater than it.
#[derive(Debug, Clone, Copy, PartialEq, Eq, Structural)]
pub enum PartialOrdering {
    /// The first cell is smaller on both axes.
    Less,
    /// The two cells coincide.
    Equal,
    /// The first cell is greater on both axes.
    Greater,
    /// The axes disagree, or only one of them ties.
    Incomparable,
}

impl PartialOrdering {
    /// Whether the outcome is [`PartialOrdering::Less`].
    ///
    /// A `false` does not mean "greater or equal": it is also the answer for
    /// an incomparable pair.
    pub fn is_less(self) -> (r: bool)
        ensures
            r <==> self == PartialOrdering::Less,
    {
        self == PartialOrdering::Less
    }

    /// Whether the outcome is [`PartialOrdering::Equal`].
    pub fn is_equal(self) -> (r: bool)
        ensures
            r <==> self == PartialOrdering::Equal,
    {
        self == PartialOrdering::Equal
    }

    /// Whether the outcome is [`PartialOrdering::Greater`].
    ///
    /// A `false` does not mean "less or equal": it is also the answer for an
    /// incomparable pair.
    pub fn is_greater(self) -> (r: bool)
        ensures
            r <==> self == PartialOrdering::Greater,
    {
        self == PartialOrdering::Greater
    }

    /// Whether the outcome is [`PartialOrdering::Incomparable`].
    pub fn is_incomparable(self) -> (r: bool)
        ensures
            r <==> self == PartialOrdering::Incomparable,
    {
        self == PartialOrdering::Incomparable
    }
}

} // verus!
