//! The conversions between points and chips.
//!
//! A point on the grid becomes the chip whose identifier is the letter of
//! its column followed by the token of its row; a well-formed chip becomes
//! the point whose coordinates are the places of its two characters in the
//! tables. Each conversion is offered for a value and for a reference, and
//! each is the inverse of the other.

use crate::chip::Chip;
use crate::error::ConversionError;
use crate::grid::{
    column_index, column_letter, lemma_entry_of_index, lemma_index_of_entry, row_index, row_token,
    CHIP_COL_MAP, CHIP_ROW_MAP,
};
use crate::point::Point;
use vstd::prelude::*;
use vstd::std_specs::convert::TryFromSpecImpl;

verus! {

/// The identifier of the cell `p`, or the error for a point off the grid.
pub open spec fn id_of_point(p: Point) -> Result<Seq<char>, ConversionError> {
    if p.on_grid() {
        Ok(seq![CHIP_COL_MAP@[p.x as int], CHIP_ROW_MAP@[p.y as int]])
    } else {
        Err(ConversionError::OutOfRange)
    }
}

/// Whether `id` names a cell: exactly two characters, a column letter
/// followed by a row token.
pub open spec fn is_chip_id(id: Seq<char>) -> bool {
    &&& id.len() == 2
    &&& column_index(id[0]) is Some
    &&& row_index(id[1]) is Some
}

/// The cell that `id` names, or the error for an identifier that names
/// none.
pub open spec fn point_of_id(id: Seq<char>) -> Result<Point, ConversionError> {
    if is_chip_id(id) {
        Ok(Point { x: column_index(id[0])->0, y: row_index(id[1])->0 })
    } else {
        Err(ConversionError::LookupMiss)
    }
}

/// `String::push` appends the given character to the end of the string and
/// leaves the characters before it as they were.
pub assume_specification[ String::push ](s: &mut String, ch: char)
    ensures
        final(s)@ == old(s)@.push(ch),
;

impl TryFrom<&Point> for Chip {
    type Error = ConversionError;

    /// The chip of a point on the grid; [`ConversionError::OutOfRange`] for
    /// any other point.
    fn try_from(p: &Point) -> (r: Result<Chip, ConversionError>)
        ensures
            match id_of_point(*p) {
                Ok(id) => r matches Ok(c) && c@ == id,
                Err(e) => r == Err::<Chip, ConversionError>(e),
            },
            r matches Ok(c) ==> c.well_formed() && point_of_id(c@) == Ok::<Point, ConversionError>(*p),
    {
        match (column_letter(p.x), row_token(p.y)) {
            (Some(column), Some(row)) => {
                let mut id = String::new();
                id.push(column);
                id.push(row);
                proof {
                    lemma_point_round_trip(*p);
                }
                Ok(Chip { id })
            },
            _ => Err(ConversionError::OutOfRange),
        }
    }
}

/// A chip holds a `String`, which ghost code knows by its characters only,
/// so no ghost expression can name the chip that comes out. What `try_from`
/// returns is stated in its own `ensures`, over the view of the chip.
impl TryFromSpecImpl<&Point> for Chip {
    open spec fn obeys_try_from_spec() -> bool {
        false
    }

    open spec fn try_from_spec(p: &Point) -> Result<Chip, ConversionError> {
        arbitrary()
    }
}

impl TryFrom<Point> for Chip {
    type Error = ConversionError;

    /// As for a reference to the point.
    fn try_from(p: Point) -> (r: Result<Chip, ConversionError>)
        ensures
            match id_of_point(p) {
                Ok(id) => r matches Ok(c) && c@ == id,
                Err(e) => r == Err::<Chip, ConversionError>(e),
            },
            r matches Ok(c) ==> c.well_formed() && point_of_id(c@) == Ok::<Point, ConversionError>(p),
    {
        Chip::try_from(&p)
    }
}

impl TryFromSpecImpl<Point> for Chip {
    open spec fn obeys_try_from_spec() -> bool {
        false
    }

    open spec fn try_from_spec(p: Point) -> Result<Chip, ConversionError> {
        arbitrary()
    }
}

impl TryFrom<&Chip> for Point {
    type Error = ConversionError;

    /// The point of a well-formed chip; [`ConversionError::LookupMiss`] for
    /// any other chip.
    fn try_from(c: &Chip) -> (r: Result<Point, ConversionError>)
        ensures
            r == point_of_id(c@),
            r matches Ok(p) ==> p.on_grid() && id_of_point(p) == Ok::<Seq<char>, ConversionError>(c@),
    {
        let id = c.id.as_str();
        if id.unicode_len() != 2 {
            return Err(ConversionError::LookupMiss);
        }
        proof {
            if is_chip_id(c@) {
                lemma_id_round_trip(c@);
            }
        }
        match (column_index(id.get_char(0)), row_index(id.get_char(1))) {
            (Some(x), Some(y)) => Ok(Point { x, y }),
            _ => Err(ConversionError::LookupMiss),
        }
    }
}

impl TryFromSpecImpl<&Chip> for Point {
    open spec fn obeys_try_from_spec() -> bool {
        true
    }

    open spec fn try_from_spec(c: &Chip) -> Result<Point, ConversionError> {
        point_of_id(c@)
    }
}

impl TryFrom<Chip> for Point {
    type Error = ConversionError;

    /// As for a reference to the chip.
    fn try_from(c: Chip) -> (r: Result<Point, ConversionError>)
        ensures
            r == point_of_id(c@),
            r matches Ok(p) ==> p.on_grid() && id_of_point(p) == Ok::<Seq<char>, ConversionError>(c@),
    {
        Point::try_from(&c)
    }
}

impl TryFromSpecImpl<Chip> for Point {
    open spec fn obeys_try_from_spec() -> bool {
        true
    }

    open spec fn try_from_spec(c: Chip) -> Result<Point, ConversionError> {
        point_of_id(c@)
    }
}

/// A point on the grid, converted to its identifier and back, is the same
/// point again.
pub proof fn lemma_point_round_trip(p: Point)
    requires
        p.on_grid(),
    ensures
        id_of_point(p) matches Ok(id) && point_of_id(id) == Ok::<Point, ConversionError>(p),
{
    lemma_index_of_entry(p.x);
    lemma_index_of_entry(p.y);
}

/// An identifier that names a cell, converted to its point and back, is the
/// same identifier again.
pub proof fn lemma_id_round_trip(id: Seq<char>)
    requires
        is_chip_id(id),
    ensures
        point_of_id(id) matches Ok(p) && id_of_point(p) == Ok::<Seq<char>, ConversionError>(id),
{
    lemma_entry_of_index(id[0]);
    lemma_entry_of_index(id[1]);
    let p = point_of_id(id)->Ok_0;
    assert(id_of_point(p)->Ok_0 =~= id);
}

} // verus!
