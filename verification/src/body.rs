//! Questions about the snake's body: a sequence of cells, head first.

use vstd::prelude::*;
use std::collections::VecDeque;

verus! {

/// Whether the head of `snake` lies on one of the cells behind it.
pub open spec fn bites_itself(snake: Seq<(u16, u16)>) -> bool {
    snake.skip(1).contains(snake[0])
}

/// Whether every cell of `snake` is on a column of the parity of `column`.
pub open spec fn on_parity(snake: Seq<(u16, u16)>, column: u16) -> bool {
    forall|i: int| 0 <= i < snake.len() ==> (#[trigger] snake[i]).0 % 2 == column % 2
}

/// Whether `cell` is among the cells of `snake` from index `start` on.
pub fn occupies_from(snake: &VecDeque<(u16, u16)>, start: usize, cell: (u16, u16)) -> (r: bool)
    requires
        start <= snake@.len(),
    ensures
        r == snake@.skip(start as int).contains(cell),
{
    let ghost rest = snake@.skip(start as int);
    let mut i: usize = start;
    while i < snake.len()
        invariant
            start <= i <= snake@.len(),
            rest == snake@.skip(start as int),
            forall|j: int| 0 <= j < i - start ==> rest[j] != cell,
        decreases snake@.len() - i,
    {
        let here = snake[i];
        if here.0 == cell.0 && here.1 == cell.1 {
            assert(rest[i - start] == cell);
            return true;
        }
        i = i + 1;
    }
    false
}

/// Whether `cell` is one of the cells of `snake`.
pub fn occupies(snake: &VecDeque<(u16, u16)>, cell: (u16, u16)) -> (r: bool)
    ensures
        r == snake@.contains(cell),
{
    assert(snake@.skip(0) =~= snake@);
    occupies_from(snake, 0, cell)
}

/// Whether no cell occurs twice in `snake`.
pub fn all_distinct(snake: &VecDeque<(u16, u16)>) -> (r: bool)
    ensures
        r == snake@.no_duplicates(),
{
    let mut i: usize = 0;
    while i < snake.len()
        invariant
            i <= snake@.len(),
            forall|a: int, b: int| 0 <= a < i && a < b < snake@.len() ==> snake@[a] != snake@[b],
        decreases snake@.len() - i,
    {
        if occupies_from(snake, i + 1, snake[i]) {
            let ghost rest = snake@.skip(i + 1);
            let ghost k = choose|k: int| 0 <= k < rest.len() && rest[k] == snake@[i as int];
            assert(snake@[i + 1 + k] == snake@[i as int]);
            return false;
        }
        assert forall|b: int| i < b < snake@.len() implies snake@[i as int] != snake@[b] by {
            assert(snake@.skip(i + 1)[b - i - 1] == snake@[b]);
        }
        i = i + 1;
    }
    assert forall|a: int, b: int|
        0 <= a < snake@.len() && 0 <= b < snake@.len() && a != b implies snake@[a] != snake@[b] by {
        if a < b {
        } else {
            assert(snake@[b] != snake@[a]);
        }
    }
    true
}

/// Whether every cell of `snake` is on a column of the parity of `column`.
pub fn all_on_parity(snake: &VecDeque<(u16, u16)>, column: u16) -> (r: bool)
    ensures
        r == on_parity(snake@, column),
{
    let mut i: usize = 0;
    while i < snake.len()
        invariant
            i <= snake@.len(),
            forall|j: int| 0 <= j < i ==> (#[trigger] snake@[j]).0 % 2 == column % 2,
        decreases snake@.len() - i,
    {
        if snake[i].0 % 2 != column % 2 {
            return false;
        }
        i = i + 1;
    }
    true
}

} // verus!
