//! Points of the grid and their partial order.
//!
//! One point is less than another when it is smaller on both axes, greater
//! when it is greater on both, equal when both coordinates agree, and
//! incomparable in every other case. The order is therefore not the
//! lexicographic one: `(1, 2)` and `(2, 1)` are incomparable.

use crate::grid::in_range;
use crate::order::PartialOrdering;
use std::cmp::Ordering;
use vstd::prelude::*;
use vstd::std_specs::cmp::PartialOrdSpecImpl;

verus! {

/// A cell of the grid, named by its column `x` and its row `y`.
///
/// Any pair of integers is a point. Only the points that lie on the grid,
/// with both coordinates in `0..GRID_SIZE`, have a chip.
#[derive(Debug, Clone, Copy, PartialEq, Eq, Structural)]
pub struct Point {
    pub x: i32,
    pub y: i32,
}

impl Point {
    /// Whether the point lies on the grid.
    pub open spec fn on_grid(&self) -> bool {
        in_range(self.x) && in_range(self.y)
    }

    /// How `self` stands to `other` in the partial order.
    pub open spec fn spec_compare(&self, other: &Point) -> PartialOrdering {
        if self.x == other.x && self.y == other.y {
            PartialOrdering::Equal
        } else if self.x < other.x && self.y < other.y {
            PartialOrdering::Less
        } else if self.x > other.x && self.y > other.y {
            PartialOrdering::Greater
        } else {
            PartialOrdering::Incomparable
        }
    }

    /// Compares two points axis by axis and combines the two answers: where
    /// they agree that is the result, where they differ the points are
    /// incomparable.
    #[verifier::when_used_as_spec(spec_compare)]
    pub fn compare(&self, other: &Point) -> (r: PartialOrdering)
        ensures
            r == self.spec_compare(other),
    {
        let x = self.x.cmp(&other.x);
        let y = self.y.cmp(&other.y);
        match (x, y) {
            (Ordering::Equal, Ordering::Equal) => PartialOrdering::Equal,
            (Ordering::Greater, Ordering::Greater) => PartialOrdering::Greater,
            (Ordering::Less, Ordering::Less) => PartialOrdering::Less,
            _ => PartialOrdering::Incomparable,
        }
    }
}

/// The comparison operators go by [`Point::compare`]. Each of `<`, `<=`, `>`
/// and `>=` is `false` for an incomparable pair, so `!(a < b)` does not
/// mean `a >= b`.
impl PartialOrd for Point {
    fn partial_cmp(&self, other: &Point) -> (r: Option<Ordering>) {
        match self.compare(other) {
            PartialOrdering::Less => Some(Ordering::Less),
            PartialOrdering::Equal => Some(Ordering::Equal),
            PartialOrdering::Greater => Some(Ordering::Greater),
            PartialOrdering::Incomparable => None,
        }
    }
}

impl PartialOrdSpecImpl for Point {
    open spec fn obeys_partial_cmp_spec() -> bool {
        true
    }

    open spec fn partial_cmp_spec(&self, other: &Point) -> Option<Ordering> {
        match self.compare(other) {
            PartialOrdering::Less => Some(Ordering::Less),
            PartialOrdering::Equal => Some(Ordering::Equal),
            PartialOrdering::Greater => Some(Ordering::Greater),
            PartialOrdering::Incomparable => None,
        }
    }
}

/// Every point is equal to itself.
pub proof fn lemma_compare_reflexive(p: Point)
    ensures
        p.compare(&p) == PartialOrdering::Equal,
{
}

/// Two points compare equal exactly when they are the same point.
pub proof fn lemma_compare_equal_iff_same(a: Point, b: Point)
    ensures
        a.compare(&b) == PartialOrdering::Equal <==> a == b,
{
}

/// One point is greater than another exactly when the other is less than
/// it, and less exactly when the other is greater.
pub proof fn lemma_compare_antisymmetric(a: Point, b: Point)
    ensures
        a.compare(&b) == PartialOrdering::Greater <==> b.compare(&a) == PartialOrdering::Less,
        a.compare(&b) == PartialOrdering::Less <==> b.compare(&a) == PartialOrdering::Greater,
{
}

/// Less follows from less and less, and greater from greater and greater.
pub proof fn lemma_compare_transitive(a: Point, b: Point, c: Point)
    ensures
        a.compare(&b) == PartialOrdering::Less && b.compare(&c) == PartialOrdering::Less
            ==> a.compare(&c) == PartialOrdering::Less,
        a.compare(&b) == PartialOrdering::Greater && b.compare(&c) == PartialOrdering::Greater
            ==> a.compare(&c) == PartialOrdering::Greater,
{
}

} // verus!
