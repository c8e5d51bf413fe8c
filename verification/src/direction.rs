//! The four headings and the rule that forbids reversing on the spot.

use vstd::prelude::*;

verus! {

/// A heading on the grid.
#[derive(Debug, Clone, Copy, PartialEq, Eq, Structural)]
pub enum Direction {
    Up,
    Down,
    Left,
    Right,
}

impl Direction {
    /// The heading that points the other way.
    pub open spec fn opposite(self) -> Direction {
        match self {
            Direction::Up => Direction::Down,
            Direction::Down => Direction::Up,
            Direction::Left => Direction::Right,
            Direction::Right => Direction::Left,
        }
    }

    /// Whether `self` and `other` are antiparallel.
    pub open spec fn opposes(self, other: Direction) -> bool {
        other == self.opposite()
    }

    /// The heading that results when a snake heading `self` is asked to turn
    /// to `wanted`: the request is taken unless it would reverse the snake.
    pub open spec fn turned(self, wanted: Direction) -> Direction {
        if self.opposes(wanted) {
            self
        } else {
            wanted
        }
    }

    /// True exactly for the pairs Up/Down, Down/Up, Left/Right and Right/Left.
    pub fn is_opposite(self, other: Direction) -> (r: bool)
        ensures
            r == self.opposes(other),
    {
        match (self, other) {
            (Direction::Up, Direction::Down) => true,
            (Direction::Down, Direction::Up) => true,
            (Direction::Left, Direction::Right) => true,
            (Direction::Right, Direction::Left) => true,
            _ => false,
        }
    }
}

/// Opposition is symmetric, and it holds of exactly four of the sixteen
/// pairs: the antiparallel ones. No heading opposes itself.
pub proof fn lemma_opposes_symmetric_and_exact(a: Direction, b: Direction)
    ensures
        a.opposes(b) == b.opposes(a),
        a.opposes(b) <==> {
            ||| (a == Direction::Up && b == Direction::Down)
            ||| (a == Direction::Down && b == Direction::Up)
            ||| (a == Direction::Left && b == Direction::Right)
            ||| (a == Direction::Right && b == Direction::Left)
        },
        !a.opposes(a),
        a.opposite().opposite() == a,
{
}

/// A request to reverse that follows a turn request at once is ignored: the
/// heading stays what the first request left it.
pub proof fn lemma_reversal_after_turn_is_ignored(heading: Direction, wanted: Direction)
    ensures
        heading.turned(wanted).turned(wanted.opposite()) == heading.turned(wanted),
{
}

/// When the first request is itself a reversal of the current heading, the
/// two requests together leave the heading as it was before the first.
pub proof fn lemma_refused_turn_then_back(heading: Direction, wanted: Direction)
    requires
        heading != wanted,
        heading.opposes(wanted),
    ensures
        heading.turned(wanted).turned(wanted.opposite()) == heading,
{
}

} // verus!
