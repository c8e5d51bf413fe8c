//! What the engine asks its caller to put on the terminal.
//!
//! The engine never writes to a terminal itself. It returns draw commands, in
//! the order in which they are to be executed, and leaves the output, and the
//! flush after each batch, to the caller.

use vstd::prelude::*;

verus! {

/// The four looks of a piece of food. They differ in appearance only.
#[derive(Debug, Clone, Copy, PartialEq, Eq, Structural)]
pub enum FoodStyle {
    /// A dot followed by a low half block.
    DotLow,
    /// A low half block followed by a dot.
    LowDot,
    /// A high half block followed by a dot.
    HighDot,
    /// A dot followed by a high half block.
    DotHigh,
}

/// What to write at a position.
#[derive(Debug, Clone, Copy, PartialEq, Eq, Structural)]
pub enum Glyph {
    /// That many full blocks in a row, one per column. A segment of the snake
    /// and a piece of the side frame are two blocks.
    Blocks(u16),
    /// Two spaces: a cell that the snake has left.
    Blank,
    /// A piece of food, two columns wide.
    Food(FoodStyle),
}

/// Move the cursor to column `x`, row `y` and write `glyph` there.
#[derive(Debug, Clone, Copy, PartialEq, Eq, Structural)]
pub struct DrawCommand {
    pub x: u16,
    pub y: u16,
    pub glyph: Glyph,
}

/// The command that paints one segment of the snake at `cell`.
pub open spec fn segment_at(cell: (u16, u16)) -> DrawCommand {
    DrawCommand { x: cell.0, y: cell.1, glyph: Glyph::Blocks(2) }
}

/// The command that clears `cell`.
pub open spec fn blank_at(cell: (u16, u16)) -> DrawCommand {
    DrawCommand { x: cell.0, y: cell.1, glyph: Glyph::Blank }
}

/// The food style with the given number, counted from 0 in the order of
/// declaration. Numbers past 3 give the last style.
pub open spec fn style_numbered(n: u16) -> FoodStyle {
    if n == 0 {
        FoodStyle::DotLow
    } else if n == 1 {
        FoodStyle::LowDot
    } else if n == 2 {
        FoodStyle::HighDot
    } else {
        FoodStyle::DotHigh
    }
}

/// The number of rows between the top and the bottom row of a frame.
pub open spec fn side_rows(height: u16) -> int {
    if height >= 2 {
        height - 2
    } else {
        0
    }
}

/// The frame of a terminal with `width` columns and `height` rows: the top
/// row, the bottom row, then for each row between them, from the top down,
/// its left and its right piece.
pub open spec fn border(width: u16, height: u16) -> Seq<DrawCommand> {
    Seq::new(
        (2 + 2 * side_rows(height)) as nat,
        |i: int|
            if i == 0 {
                DrawCommand { x: 0, y: 0, glyph: Glyph::Blocks(width) }
            } else if i == 1 {
                DrawCommand { x: 0, y: (height - 1) as u16, glyph: Glyph::Blocks(width) }
            } else if i % 2 == 0 {
                DrawCommand { x: 0, y: (i / 2) as u16, glyph: Glyph::Blocks(2) }
            } else {
                DrawCommand { x: (width - 2) as u16, y: (i / 2) as u16, glyph: Glyph::Blocks(2) }
            },
    )
}

impl FoodStyle {
    /// Picks a style by its number.
    pub fn numbered(n: u16) -> (style: FoodStyle)
        ensures
            style == style_numbered(n),
    {
        if n == 0 {
            FoodStyle::DotLow
        } else if n == 1 {
            FoodStyle::LowDot
        } else if n == 2 {
            FoodStyle::HighDot
        } else {
            FoodStyle::DotHigh
        }
    }
}

impl DrawCommand {
    /// Paints one segment of the snake at `cell`.
    pub fn segment(cell: (u16, u16)) -> (command: DrawCommand)
        ensures
            command == segment_at(cell),
    {
        DrawCommand { x: cell.0, y: cell.1, glyph: Glyph::Blocks(2) }
    }

    /// Clears `cell`.
    pub fn blank(cell: (u16, u16)) -> (command: DrawCommand)
        ensures
            command == blank_at(cell),
    {
        DrawCommand { x: cell.0, y: cell.1, glyph: Glyph::Blank }
    }
}

/// Lays out the frame of a terminal with `width` columns and `height` rows.
///
/// The frame needs a bottom row, and a frame with side pieces needs two
/// columns to put the right one in.
pub fn draw_border(width: u16, height: u16) -> (commands: Vec<DrawCommand>)
    requires
        height >= 1,
        height >= 3 ==> width >= 2,
    ensures
        commands@ == border(width, height),
{
    let mut commands: Vec<DrawCommand> = Vec::new();
    commands.push(DrawCommand { x: 0, y: 0, glyph: Glyph::Blocks(width) });
    commands.push(DrawCommand { x: 0, y: height - 1, glyph: Glyph::Blocks(width) });
    let mut row: u16 = 1;
    while row < height - 1
        invariant
            height >= 1,
            height >= 3 ==> width >= 2,
            1 <= row,
            row == 1 || row <= height - 1,
            commands@.len() == 2 * row,
            forall|i: int| 0 <= i < commands@.len() ==> commands@[i] == border(width, height)[i],
        decreases height - row,
    {
        commands.push(DrawCommand { x: 0, y: row, glyph: Glyph::Blocks(2) });
        commands.push(DrawCommand { x: width - 2, y: row, glyph: Glyph::Blocks(2) });
        row = row + 1;
    }
    assert(commands@ =~= border(width, height));
    commands
}

} // verus!
