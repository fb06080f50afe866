//! Cells of a ten by ten grid in two notations, and a partial order on them.
//!
//! A [`Point`] names a cell by a pair of integer coordinates; a [`Chip`]
//! names it by a two-character identifier such as `"B3"`, a column letter
//! followed by a row token. The modules are:
//!
//! - [`grid`]: the two lookup tables and the lookups in both directions;
//! - [`error`]: the ways in which a conversion fails;
//! - [`order`]: the four outcomes of comparing two cells;
//! - [`point`]: points and their partial order;
//! - [`chip`]: chips and the order they take from their points;
//! - [`convert`]: the conversions between the two, and the laws that make
//!   them inverse to each other.

pub mod chip;
pub mod convert;
pub mod error;
pub mod grid;
pub mod order;
pub mod point;

pub use crate::chip::Chip;
pub use crate::error::ConversionError;
pub use crate::grid::{CHIP_COL_MAP, CHIP_ROW_MAP, GRID_SIZE};
pub use crate::order::PartialOrdering;
pub use crate::point::Point;
