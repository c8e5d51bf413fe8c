//! The coordinate space: cells, the margins kept free for the frame, and the
//! columns on which glyphs line up.
//!
//! A cell is a pair `(x, y)` of a terminal column and a row. A glyph is two
//! columns wide, so a horizontal move shifts `x` by 2, and all cells in play
//! share the parity of the snake's first column.

use vstd::prelude::*;
use crate::direction::Direction;

verus! {

/// Whether `cell` lies on or beyond the frame of a terminal of `size`
/// (columns, rows): the frame takes the columns up to 2 and from
/// `width - 2` on, row 0, and the rows from `height - 1` on.
pub open spec fn hits_wall(cell: (u16, u16), size: (u16, u16)) -> bool {
    ||| cell.0 <= 2
    ||| cell.0 >= size.0 - 2
    ||| cell.1 <= 0
    ||| cell.1 >= size.1 - 1
}

/// Whether a terminal of `size` leaves any cell for food: the columns
/// `2 ..= width - 4` and the rows `1 ..= height - 2` must both exist.
pub open spec fn has_interior(size: (u16, u16)) -> bool {
    2 <= size.0 - 4 && 1 <= size.1 - 2
}

/// The cell one step from `cell` towards `heading`: two columns sideways or
/// one row up or down.
pub open spec fn shifted(cell: (u16, u16), heading: Direction) -> (int, int) {
    match heading {
        Direction::Up => (cell.0 as int, cell.1 - 1),
        Direction::Down => (cell.0 as int, cell.1 + 1),
        Direction::Left => (cell.0 - 2, cell.1 as int),
        Direction::Right => (cell.0 + 2, cell.1 as int),
    }
}

/// Whether a step from `cell` in any direction stays within `u16`. Every cell
/// that is off the frame of some terminal can step.
pub open spec fn can_step(cell: (u16, u16)) -> bool {
    2 <= cell.0 <= u16::MAX - 2 && 1 <= cell.1 <= u16::MAX - 1
}

/// The column on which a glyph is drawn when column `raw` was drawn by lot:
/// `raw` itself if it has the parity of `head_column`, else the next column,
/// or the one before `raw` where the next would pass `max_column`.
pub open spec fn aligned_column(raw: u16, head_column: u16, max_column: u16) -> int {
    if raw % 2 == head_column % 2 {
        raw as int
    } else if raw + 1 > max_column {
        raw - 1
    } else {
        raw + 1
    }
}

/// The middle of a terminal of `size`, each coordinate rounded down.
pub open spec fn center(size: (u16, u16)) -> (u16, u16) {
    (size.0 / 2, size.1 / 2)
}

/// Tests `cell` against the frame of a terminal of `size`.
pub fn on_wall(cell: (u16, u16), size: (u16, u16)) -> (r: bool)
    ensures
        r == hits_wall(cell, size),
{
    cell.0 <= 2 || cell.0 as u32 + 2 >= size.0 as u32 || cell.1 == 0 || cell.1 as u32 + 1
        >= size.1 as u32
}

/// Tests whether a terminal of `size` has room for food.
pub fn interior_exists(size: (u16, u16)) -> (r: bool)
    ensures
        r == has_interior(size),
{
    size.0 >= 6 && size.1 >= 3
}

/// Steps from `cell` towards `heading`.
pub fn neighbor(cell: (u16, u16), heading: Direction) -> (next: (u16, u16))
    requires
        can_step(cell),
    ensures
        next.0 == shifted(cell, heading).0,
        next.1 == shifted(cell, heading).1,
{
    match heading {
        Direction::Up => (cell.0, cell.1 - 1),
        Direction::Down => (cell.0, cell.1 + 1),
        Direction::Left => (cell.0 - 2, cell.1),
        Direction::Right => (cell.0 + 2, cell.1),
    }
}

/// Moves a column drawn by lot onto the parity of the snake's head.
pub fn align_column(raw: u16, head_column: u16, max_column: u16) -> (column: u16)
    requires
        1 <= raw <= max_column,
    ensures
        column == aligned_column(raw, head_column, max_column),
{
    if raw % 2 == head_column % 2 {
        raw
    } else if raw == max_column {
        raw - 1
    } else {
        raw + 1
    }
}

/// An aligned column has the parity of the head's column, and it stays in
/// the range it was drawn from, except that a range of one column of the
/// wrong parity yields the column before it.
pub proof fn lemma_aligned_column(raw: u16, head_column: u16, low: u16, max_column: u16)
    requires
        low <= raw <= max_column,
    ensures
        aligned_column(raw, head_column, max_column) % 2 == head_column % 2,
        low < max_column ==> low <= aligned_column(raw, head_column, max_column) <= max_column,
        low == max_column ==> aligned_column(raw, head_column, max_column) == (if low % 2
            == head_column % 2 {
            low as int
        } else {
            low - 1
        }),
{
}

} // verus!
