//! The two lookup tables of the grid and the lookups in both directions.
//!
//! A column is written as a letter, `'A'` for column 0 up to `'J'` for
//! column 9. A row is written as a digit, `'1'` for row 0 up to `'9'` for
//! row 8, and `'0'` for row 9: the zero comes last.

use vstd::prelude::*;

verus! {

/// Number of columns, and of rows, of the grid.
pub const GRID_SIZE: usize = 10;

/// The letter of each column, indexed by the `x` coordinate.
pub const CHIP_COL_MAP: [char; GRID_SIZE] = ['A', 'B', 'C', 'D', 'E', 'F', 'G', 'H', 'I', 'J'];

/// The token of each row, indexed by the `y` coordinate.
pub const CHIP_ROW_MAP: [char; GRID_SIZE] = ['1', '2', '3', '4', '5', '6', '7', '8', '9', '0'];

/// Whether `coordinate` is the index of a column, or of a row, of the grid.
pub open spec fn in_range(coordinate: i32) -> bool {
    0 <= coordinate < GRID_SIZE
}

/// The column that the letter `c` stands for, if it is a column letter.
pub open spec fn spec_column_index(c: char) -> Option<i32> {
    if CHIP_COL_MAP@.contains(c) {
        Some(CHIP_COL_MAP@.index_of(c) as i32)
    } else {
        None
    }
}

/// The row that the token `c` stands for, if it is a row token.
pub open spec fn spec_row_index(c: char) -> Option<i32> {
    if CHIP_ROW_MAP@.contains(c) {
        Some(CHIP_ROW_MAP@.index_of(c) as i32)
    } else {
        None
    }
}

/// The letter of column `x`, or `None` where the grid has no such column.
pub fn column_letter(x: i32) -> (r: Option<char>)
    ensures
        in_range(x) ==> r == Some(CHIP_COL_MAP@[x as int]),
        !in_range(x) ==> r is None,
{
    if 0 <= x && x < GRID_SIZE as i32 {
        Some(CHIP_COL_MAP[x as usize])
    } else {
        None
    }
}

/// The token of row `y`, or `None` where the grid has no such row.
pub fn row_token(y: i32) -> (r: Option<char>)
    ensures
        in_range(y) ==> r == Some(CHIP_ROW_MAP@[y as int]),
        !in_range(y) ==> r is None,
{
    if 0 <= y && y < GRID_SIZE as i32 {
        Some(CHIP_ROW_MAP[y as usize])
    } else {
        None
    }
}

/// The index of the first entry of `table` that equals `c`.
fn position(table: &[char; GRID_SIZE], c: char) -> (r: Option<usize>)
    ensures
        match r {
            Some(i) => {
                &&& i < GRID_SIZE
                &&& table@[i as int] == c
                &&& forall|j: int| 0 <= j < i ==> table@[j] != c
            },
            None => !table@.contains(c),
        },
{
    let mut i: usize = 0;
    while i < GRID_SIZE
        invariant
            i <= GRID_SIZE,
            forall|j: int| 0 <= j < i ==> table@[j] != c,
        decreases GRID_SIZE - i,
    {
        if table[i] == c {
            return Some(i);
        }
        i += 1;
    }
    None
}

/// The column that the letter `c` stands for, or `None` where `c` is no
/// column letter.
#[verifier::when_used_as_spec(spec_column_index)]
pub fn column_index(c: char) -> (r: Option<i32>)
    ensures
        r == spec_column_index(c),
{
    match position(&CHIP_COL_MAP, c) {
        Some(i) => Some(i as i32),
        None => None,
    }
}

/// The row that the token `c` stands for, or `None` where `c` is no row
/// token.
#[verifier::when_used_as_spec(spec_row_index)]
pub fn row_index(c: char) -> (r: Option<i32>)
    ensures
        r == spec_row_index(c),
{
    match position(&CHIP_ROW_MAP, c) {
        Some(i) => Some(i as i32),
        None => None,
    }
}

/// Looking up the letter of a column and then the column of that letter
/// gives the column again, and likewise for rows: no table holds a
/// character twice.
pub proof fn lemma_index_of_entry(i: i32)
    requires
        in_range(i),
    ensures
        column_index(CHIP_COL_MAP@[i as int]) == Some(i),
        row_index(CHIP_ROW_MAP@[i as int]) == Some(i),
{
}

/// Looking up the column of a letter and then the letter of that column
/// gives the letter again, and likewise for rows.
pub proof fn lemma_entry_of_index(c: char)
    ensures
        column_index(c) matches Some(x) ==> in_range(x) && CHIP_COL_MAP@[x as int] == c,
        row_index(c) matches Some(y) ==> in_range(y) && CHIP_ROW_MAP@[y as int] == c,
{
}

} // verus!
