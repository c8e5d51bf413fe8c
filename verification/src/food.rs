//! Food placement: draw a cell by lot, line it up with the snake's columns,
//! and try again while it falls on the snake.

use vstd::prelude::*;
use std::collections::VecDeque;
use crate::body::occupies;
use crate::grid::{align_column, aligned_column, has_interior, interior_exists, lemma_aligned_column};
use crate::screen::{DrawCommand, FoodStyle, Glyph};

verus! {

/// Why no food was placed.
#[derive(Debug, Clone, Copy, PartialEq, Eq, Structural)]
pub enum FoodError {
    /// The terminal is too small to have a single cell for food.
    NoInterior,
    /// Every draw within the retry budget fell on the snake.
    BoardFull,
}

/// Whether `raw` is a cell that the lot can draw on a terminal of `size`:
/// a column in `2 ..= width - 4` and a row in `1 ..= height - 2`.
pub open spec fn in_interior(raw: (u16, u16), size: (u16, u16)) -> bool {
    2 <= raw.0 <= size.0 - 4 && 1 <= raw.1 <= size.1 - 2
}

/// The cell that food takes when the lot drew `raw` and the snake's head is
/// on `head_column`: the row as drawn, the column lined up with the head's.
pub open spec fn food_site(raw: (u16, u16), head_column: u16, size: (u16, u16)) -> (u16, u16) {
    (aligned_column(raw.0, head_column, (size.0 - 4) as u16) as u16, raw.1)
}

/// Whether `cell` can come out of a placement on a terminal of `size` for a
/// snake whose head is on `head_column`.
///
/// Its column has the head's parity and lies in the interior; only where the
/// interior is a single column of the other parity, it is the column before.
pub open spec fn is_food_site(cell: (u16, u16), head_column: u16, size: (u16, u16)) -> bool {
    &&& cell.0 % 2 == head_column % 2
    &&& (2 <= cell.0 <= size.0 - 4 || (size.0 == 6 && cell.0 == 1))
    &&& 1 <= cell.1 <= size.1 - 2
}

/// Whether `snake` lies on a cell that food could take on a terminal of
/// `size`. Only then can a draw fall on the snake; where it lies on none,
/// the first draw places the food.
pub open spec fn blocks_food(snake: Seq<(u16, u16)>, size: (u16, u16)) -> bool {
    exists|cell: (u16, u16)| #[trigger] snake.contains(cell) && is_food_site(cell, snake[0].0, size)
}

/// The number of draws after which a placement gives up: the area of the
/// terminal.
pub open spec fn retry_budget(size: (u16, u16)) -> int {
    size.0 * size.1
}

/// Draws a number by lot with `rand::random_range` on the inclusive range
/// from `low` to `high`, from the thread's generator. All that is claimed of
/// the result is that it lies in that range; an empty range, on which the
/// call panics, is left out. Nothing of this is proved here.
#[verifier::external_body]
fn random_between(low: u16, high: u16) -> (r: u16)
    requires
        low <= high,
    ensures
        low <= r <= high,
{
    rand::random_range(low..=high)
}

/// Decides one draw: lines `raw` up with the head of `snake` and accepts the
/// resulting cell unless the snake lies on it.
pub fn try_food_site(snake: &VecDeque<(u16, u16)>, terminal_size: (u16, u16), raw: (u16, u16)) -> (site:
    Option<(u16, u16)>)
    requires
        snake@.len() > 0,
        in_interior(raw, terminal_size),
    ensures
        site == (if snake@.contains(food_site(raw, snake@[0].0, terminal_size)) {
            None
        } else {
            Some(food_site(raw, snake@[0].0, terminal_size))
        }),
        is_food_site(food_site(raw, snake@[0].0, terminal_size), snake@[0].0, terminal_size),
{
    let head = snake[0];
    let cell = (align_column(raw.0, head.0, terminal_size.0 - 4), raw.1);
    proof {
        lemma_aligned_column(raw.0, head.0, 2, (terminal_size.0 - 4) as u16);
    }
    if occupies(snake, cell) {
        None
    } else {
        Some(cell)
    }
}

/// Places food on a terminal of `terminal_size` for `snake`, and returns the
/// command that draws it; the command's position is the food's cell.
///
/// A terminal without interior gives `NoInterior`. Otherwise cells are drawn
/// by lot, up to `retry_budget` times, until one is free of the snake; if
/// none was, the result is `BoardFull`. That can only happen where the snake
/// lies on a cell that food could take. The food's style is drawn by lot too.
pub fn draw_food_at_random_pos(snake: &VecDeque<(u16, u16)>, terminal_size: (u16, u16)) -> (placed:
    Result<DrawCommand, FoodError>)
    requires
        snake@.len() > 0,
    ensures
        match placed {
            Ok(command) => {
                &&& has_interior(terminal_size)
                &&& command.glyph is Food
                &&& is_food_site((command.x, command.y), snake@[0].0, terminal_size)
                &&& !snake@.contains((command.x, command.y))
            },
            Err(FoodError::NoInterior) => !has_interior(terminal_size),
            Err(FoodError::BoardFull) => {
                &&& has_interior(terminal_size)
                &&& blocks_food(snake@, terminal_size)
            },
        },
{
    if !interior_exists(terminal_size) {
        return Err(FoodError::NoInterior);
    }
    assert(retry_budget(terminal_size) <= u32::MAX) by (nonlinear_arith)
        requires
            retry_budget(terminal_size) == terminal_size.0 * terminal_size.1,
            terminal_size.0 <= 0xffff,
            terminal_size.1 <= 0xffff,
    ;
    assert(retry_budget(terminal_size) > 0) by (nonlinear_arith)
        requires
            retry_budget(terminal_size) == terminal_size.0 * terminal_size.1,
            terminal_size.0 >= 6,
            terminal_size.1 >= 3,
    ;
    let budget: u32 = terminal_size.0 as u32 * terminal_size.1 as u32;
    let mut draws: u32 = 0;
    while draws < budget
        invariant
            snake@.len() > 0,
            has_interior(terminal_size),
            budget > 0,
            draws > 0 ==> blocks_food(snake@, terminal_size),
        decreases budget - draws,
    {
        let raw = (random_between(2, terminal_size.0 - 4), random_between(1, terminal_size.1 - 2));
        match try_food_site(snake, terminal_size, raw) {
            Some(cell) => {
                let style = FoodStyle::numbered(random_between(0, 3));
                return Ok(DrawCommand { x: cell.0, y: cell.1, glyph: Glyph::Food(style) });
            },
            None => {
                assert(snake@.contains(food_site(raw, snake@[0].0, terminal_size)));
            },
        }
        draws = draws + 1;
    }
    Err(FoodError::BoardFull)
}

} // verus!
