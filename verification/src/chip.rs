//! Chips: cells of the grid under their two-character identifiers.

use crate::convert::{id_of_point, is_chip_id, lemma_point_round_trip, point_of_id};
use crate::error::ConversionError;
use crate::order::PartialOrdering;
use crate::point::Point;
use vstd::prelude::*;
use vstd::std_specs::cmp::PartialEqSpecImpl;

verus! {

/// A cell of the grid, named by an identifier such as `"B3"`: the letter of
/// its column followed by the token of its row.
///
/// Any string can be put into a chip. Only a well-formed chip names a cell;
/// converting any other chip to a point fails.
#[derive(Debug)]
pub struct Chip {
    pub id: String,
}

impl View for Chip {
    type V = Seq<char>;

    /// The characters of the identifier.
    open spec fn view(&self) -> Seq<char> {
        self.id@
    }
}

impl Clone for Chip {
    /// A chip with the same identifier.
    fn clone(&self) -> (r: Chip)
        ensures
            r@ == self@,
    {
        Chip { id: self.id.clone() }
    }
}

/// Two chips are equal when their identifiers hold the same characters.
impl PartialEq for Chip {
    fn eq(&self, other: &Chip) -> (r: bool)
        ensures
            r <==> self@ == other@,
    {
        self.id == other.id
    }
}

impl PartialEqSpecImpl for Chip {
    open spec fn obeys_eq_spec() -> bool {
        true
    }

    open spec fn eq_spec(&self, other: &Chip) -> bool {
        self@ == other@
    }
}

impl Eq for Chip {}

impl Chip {
    /// Whether the identifier is exactly two characters long, the first a
    /// column letter and the second a row token.
    pub open spec fn well_formed(&self) -> bool {
        is_chip_id(self@)
    }

    /// How `self` stands to `other` in the order of their points, or the
    /// error of the first of the two that has no point.
    pub open spec fn spec_compare(&self, other: &Chip) -> Result<PartialOrdering, ConversionError> {
        match point_of_id(self@) {
            Ok(a) => match point_of_id(other@) {
                Ok(b) => Ok(a.compare(&b)),
                Err(e) => Err(e),
            },
            Err(e) => Err(e),
        }
    }

    /// Compares two chips as the points they name are compared.
    ///
    /// Fails with [`ConversionError::LookupMiss`] where one of the two is
    /// not well formed.
    #[verifier::when_used_as_spec(spec_compare)]
    pub fn compare(&self, other: &Chip) -> (r: Result<PartialOrdering, ConversionError>)
        ensures
            r == self.spec_compare(other),
            r is Ok <==> self.well_formed() && other.well_formed(),
            r is Err ==> r == Err::<PartialOrdering, ConversionError>(ConversionError::LookupMiss),
    {
        let a = match Point::try_from(self) {
            Ok(a) => a,
            Err(e) => { return Err(e); },
        };
        let b = match Point::try_from(other) {
            Ok(b) => b,
            Err(e) => { return Err(e); },
        };
        Ok(a.compare(&b))
    }
}

/// The chips of two points on the grid compare as the points do.
pub proof fn lemma_compare_follows_points(a: Point, b: Point, chip_a: Chip, chip_b: Chip)
    requires
        id_of_point(a) == Ok::<Seq<char>, ConversionError>(chip_a@),
        id_of_point(b) == Ok::<Seq<char>, ConversionError>(chip_b@),
    ensures
        chip_a.compare(&chip_b) == Ok::<PartialOrdering, ConversionError>(a.compare(&b)),
{
    lemma_point_round_trip(a);
    lemma_point_round_trip(b);
}

} // verus!
