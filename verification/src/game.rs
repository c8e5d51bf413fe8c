//! The game state and its tick.

use vstd::prelude::*;
use std::collections::VecDeque;
use crate::body::{all_distinct, all_on_parity, bites_itself, occupies, occupies_from, on_parity};
use crate::direction::Direction;
use crate::food::{blocks_food, draw_food_at_random_pos, is_food_site, FoodError};
use crate::grid::{
    can_step, center, has_interior, hits_wall, interior_exists, neighbor, on_wall, shifted,
};
use crate::screen::{blank_at, border, draw_border, segment_at, DrawCommand};

verus! {

/// What a game state stands for: the snake's cells from head to tail, its
/// heading, and the cell of the food.
pub struct GameModel {
    pub snake: Seq<(u16, u16)>,
    pub direction: Direction,
    pub food: (u16, u16),
}

impl GameModel {
    /// A game in play: the snake has a head, which is off the frame of even
    /// the largest terminal; no two of its cells are equal; the food lies on
    /// none of them; and snake and food share one parity of columns.
    pub open spec fn wf(self) -> bool {
        &&& self.snake.len() > 0
        &&& !hits_wall(self.snake[0], (u16::MAX, u16::MAX))
        &&& self.snake.no_duplicates()
        &&& !self.snake.contains(self.food)
        &&& on_parity(self.snake, self.snake[0].0)
        &&& self.food.0 % 2 == self.snake[0].0 % 2
    }

    /// Whether a tick can be made: the snake has a head, and a step from it
    /// in any direction stays within `u16`. Every game in play can tick.
    pub open spec fn can_tick(self) -> bool {
        self.snake.len() > 0 && can_step(self.snake[0])
    }

    /// The snake one tick later if the head eats: the next head, followed by
    /// all of the snake.
    pub open spec fn grown(self) -> Seq<(u16, u16)> {
        seq![self.next_head()] + self.snake
    }

    /// The game as it starts on a terminal of `size`, with the food on
    /// `food`: one cell in the middle, heading right.
    pub open spec fn opening(size: (u16, u16), food: (u16, u16)) -> GameModel {
        GameModel { snake: seq![center(size)], direction: Direction::Right, food }
    }

    /// The cell that the head moves to at the next tick.
    pub open spec fn next_head(self) -> (u16, u16) {
        let to = shifted(self.snake[0], self.direction);
        (to.0 as u16, to.1 as u16)
    }

    /// Whether the next tick takes the head onto the food.
    pub open spec fn eats(self) -> bool {
        self.next_head() == self.food
    }

    /// The game one tick later. The head moves one step. If it lands on the
    /// food, the snake keeps its tail and the food moves to `fresh`;
    /// otherwise the tail follows and the food stays.
    pub open spec fn moved(self, fresh: (u16, u16)) -> GameModel {
        if self.eats() {
            GameModel { snake: self.grown(), direction: self.direction, food: fresh }
        } else {
            GameModel {
                snake: seq![self.next_head()] + self.snake.drop_last(),
                direction: self.direction,
                food: self.food,
            }
        }
    }

    /// Whether the game has ended: the head is on the frame of a terminal of
    /// `size`, or on another cell of the snake.
    pub open spec fn collided(self, size: (u16, u16)) -> bool {
        hits_wall(self.snake[0], size) || bites_itself(self.snake)
    }

    /// What the next tick puts on screen, where `fresh` draws the new food
    /// of a tick that eats: the new head; then, where the head ate, the
    /// eaten cell as a segment and the new food; else a blank on the cell
    /// that the tail left.
    pub open spec fn tick_draws(self, fresh: DrawCommand) -> Seq<DrawCommand> {
        if self.eats() {
            seq![segment_at(self.next_head()), segment_at(self.food), fresh]
        } else {
            seq![segment_at(self.next_head()), blank_at(self.snake.last())]
        }
    }
}

/// The snake, its heading and the food.
pub struct GameState {
    /// The first cell is the head.
    snake: VecDeque<(u16, u16)>,
    direction: Direction,
    food: (u16, u16),
}

/// What one tick did.
#[derive(Debug)]
pub struct Tick {
    /// Whether the head ran into the frame or into the snake: the game is
    /// over.
    pub collided: bool,
    /// What changed on screen, in drawing order.
    pub draws: Vec<DrawCommand>,
}

impl View for GameState {
    type V = GameModel;

    closed spec fn view(&self) -> GameModel {
        GameModel { snake: self.snake@, direction: self.direction, food: self.food }
    }
}

impl GameState {
    /// Whether the game is in play. A new game is, and it stays so until a
    /// tick reports a collision. A game in play can tick.
    pub open spec fn wf(&self) -> bool {
        self@.wf()
    }

    /// Starts a game on a terminal of `terminal_size` (columns, rows): the
    /// snake is one cell in the middle, heading right, and food is placed.
    /// Returns the state and the commands that draw the head and the food.
    ///
    /// Fails where no food could be placed: with `NoInterior` on a terminal
    /// without interior, and with `BoardFull` where every draw fell on the
    /// head, which can only happen where the head is on a cell that food
    /// could take.
    pub fn new(terminal_size: (u16, u16)) -> (started: Result<(GameState, Vec<DrawCommand>), FoodError>)
        ensures
            match started {
                Ok((state, draws)) => {
                    &&& has_interior(terminal_size)
                    &&& state@ == GameModel::opening(terminal_size, state@.food)
                    &&& is_food_site(state@.food, center(terminal_size).0, terminal_size)
                    &&& state@.food != center(terminal_size)
                    &&& state.wf()
                    &&& draws@.len() == 2
                    &&& draws@[0] == segment_at(center(terminal_size))
                    &&& draws@[1].glyph is Food
                    &&& (draws@[1].x, draws@[1].y) == state@.food
                },
                Err(FoodError::NoInterior) => !has_interior(terminal_size),
                Err(FoodError::BoardFull) => {
                    &&& has_interior(terminal_size)
                    &&& is_food_site(center(terminal_size), center(terminal_size).0, terminal_size)
                },
            },
    {
        let pos = (terminal_size.0 / 2, terminal_size.1 / 2);
        let mut snake: VecDeque<(u16, u16)> = VecDeque::new();
        snake.push_front(pos);
        assert(snake@ =~= seq![pos]);
        match draw_food_at_random_pos(&snake, terminal_size) {
            Ok(fresh) => {
                let mut draws: Vec<DrawCommand> = Vec::new();
                draws.push(DrawCommand::segment(pos));
                draws.push(fresh);
                let state = GameState { snake, direction: Direction::Right, food: (fresh.x, fresh.y) };
                assert(state@.snake[0] == pos);
                Ok((state, draws))
            },
            Err(e) => Err(e),
        }
    }

    /// Builds a game from its parts: the snake's cells from head to tail, its
    /// heading, and the food's cell. Returns `None` unless a tick can be made
    /// from them. Whether they make a game in play is for `in_play` to say.
    pub fn from_parts(snake: Vec<(u16, u16)>, direction: Direction, food: (u16, u16)) -> (made: Option<
        GameState,
    >)
        ensures
            made is Some <==> (GameModel { snake: snake@, direction, food }).can_tick(),
            made matches Some(state) ==> state@ == (GameModel { snake: snake@, direction, food }),
    {
        let mut cells: VecDeque<(u16, u16)> = VecDeque::new();
        let mut i: usize = 0;
        while i < snake.len()
            invariant
                i <= snake@.len(),
                cells@ == snake@.take(i as int),
            decreases snake@.len() - i,
        {
            cells.push_back(snake[i]);
            assert(cells@ =~= snake@.take(i + 1));
            i = i + 1;
        }
        assert(cells@ =~= snake@);
        let state = GameState { snake: cells, direction, food };
        if state.can_move() {
            Some(state)
        } else {
            None
        }
    }

    /// Tests whether a tick can be made.
    pub fn can_move(&self) -> (r: bool)
        ensures
            r == self@.can_tick(),
    {
        if self.snake.len() == 0 {
            return false;
        }
        let head = self.snake[0];
        2 <= head.0 && head.0 <= u16::MAX - 2 && 1 <= head.1 && head.1 <= u16::MAX - 1
    }

    /// Tests whether the game is in play.
    pub fn in_play(&self) -> (r: bool)
        ensures
            r == self.wf(),
    {
        if self.snake.len() == 0 {
            return false;
        }
        let head = self.snake[0];
        !on_wall(head, (u16::MAX, u16::MAX)) && all_distinct(&self.snake) && !occupies(
            &self.snake,
            self.food,
        ) && all_on_parity(&self.snake, head.0) && self.food.0 % 2 == head.0 % 2
    }

    /// The snake's cells, from head to tail.
    pub fn snake(&self) -> (cells: Vec<(u16, u16)>)
        ensures
            cells@ == self@.snake,
    {
        let mut cells: Vec<(u16, u16)> = Vec::new();
        let mut i: usize = 0;
        while i < self.snake.len()
            invariant
                i <= self.snake@.len(),
                cells@ == self.snake@.take(i as int),
            decreases self.snake@.len() - i,
        {
            cells.push(self.snake[i]);
            assert(cells@ =~= self.snake@.take(i + 1));
            i = i + 1;
        }
        assert(cells@ =~= self.snake@);
        cells
    }

    /// The current heading.
    pub fn direction(&self) -> (heading: Direction)
        ensures
            heading == self@.direction,
    {
        self.direction
    }

    /// The food's cell.
    pub fn food(&self) -> (cell: (u16, u16))
        ensures
            cell == self@.food,
    {
        self.food
    }

    /// Takes `new_direction` as the heading of the next tick, unless it is
    /// the opposite of the current heading: such a request is ignored.
    pub fn change_direction(&mut self, new_direction: Direction)
        ensures
            final(self)@.direction == old(self)@.direction.turned(new_direction),
            final(self)@.snake == old(self)@.snake,
            final(self)@.food == old(self)@.food,
            old(self).wf() ==> final(self).wf(),
    {
        if !self.direction.is_opposite(new_direction) {
            self.direction = new_direction;
        }
    }

    /// One tick on a terminal that now has `terminal_size`.
    ///
    /// The head moves one step in the current heading. If it lands on the
    /// food, the snake grows by that cell and new food is placed; if no food
    /// could be placed, the tick fails and the game is left as it was.
    /// Otherwise the tail follows. The tick reports a collision if the head
    /// is then on the frame or on another cell of the snake.
    ///
    /// A tick that does not eat never fails. One that eats fails with
    /// `BoardFull` only where the grown snake lies on a cell that food could
    /// take, so that a draw could fall on it.
    pub fn move_snake(&mut self, terminal_size: (u16, u16)) -> (result: Result<Tick, FoodError>)
        requires
            old(self)@.can_tick(),
        ensures
            match result {
                Ok(tick) => {
                    &&& final(self)@ == old(self)@.moved(final(self)@.food)
                    &&& tick.draws@ == old(self)@.tick_draws(tick.draws@.last())
                    &&& tick.collided == final(self)@.collided(terminal_size)
                    &&& tick.collided == (hits_wall(old(self)@.next_head(), terminal_size)
                        || final(self)@.snake.skip(1).contains(old(self)@.next_head()))
                    &&& final(self)@.snake.len() == old(self)@.snake.len() + (if old(self)@.eats() {
                        1int
                    } else {
                        0int
                    })
                    &&& old(self)@.eats() ==> {
                        &&& has_interior(terminal_size)
                        &&& is_food_site(final(self)@.food, final(self)@.snake[0].0, terminal_size)
                        &&& !final(self)@.snake.contains(final(self)@.food)
                        &&& final(self)@.food != old(self)@.food
                        &&& tick.draws@.last().glyph is Food
                        &&& (tick.draws@.last().x, tick.draws@.last().y) == final(self)@.food
                    }
                    &&& old(self).wf() && !tick.collided ==> final(self).wf()
                },
                Err(e) => {
                    &&& old(self)@.eats()
                    &&& final(self)@ == old(self)@
                    &&& e == FoodError::NoInterior <==> !has_interior(terminal_size)
                    &&& e == FoodError::BoardFull ==> blocks_food(old(self)@.grown(), terminal_size)
                },
            },
    {
        let old_head = self.snake[0];
        let new_head = neighbor(old_head, self.direction);
        let mut draws: Vec<DrawCommand> = Vec::new();
        draws.push(DrawCommand::segment(new_head));
        self.snake.push_front(new_head);
        if new_head.0 == self.food.0 && new_head.1 == self.food.1 {
            match draw_food_at_random_pos(&self.snake, terminal_size) {
                Ok(fresh) => {
                    draws.push(DrawCommand::segment(self.food));
                    draws.push(fresh);
                    self.food = (fresh.x, fresh.y);
                },
                Err(e) => {
                    self.snake.pop_front();
                    assert(self.snake@ =~= old(self).snake@);
                    return Err(e);
                },
            }
        } else {
            match self.snake.pop_back() {
                Some(tail) => {
                    draws.push(DrawCommand::blank(tail));
                },
                None => {},
            }
            assert(self.snake@ =~= seq![new_head] + old(self).snake@.drop_last());
        }
        let collided = on_wall(new_head, terminal_size) || occupies_from(&self.snake, 1, new_head);
        proof {
            if old(self).wf() && !collided {
                lemma_moved_wf(old(self)@, self@.food, terminal_size);
            }
        }
        Ok(Tick { collided, draws })
    }
}

/// Starts a game on a terminal with `width` columns and `height` rows.
/// Returns the state and what to draw on the cleared screen: the frame, then
/// the snake's head and the food.
///
/// Fails where no food could be placed, as `GameState::new` does.
pub fn initialize_game(width: u16, height: u16) -> (started: Result<
    (GameState, Vec<DrawCommand>),
    FoodError,
>)
    ensures
        match started {
            Ok((state, draws)) => {
                &&& has_interior((width, height))
                &&& state@ == GameModel::opening((width, height), state@.food)
                &&& is_food_site(state@.food, center((width, height)).0, (width, height))
                &&& state@.food != center((width, height))
                &&& state.wf()
                &&& draws@.len() == border(width, height).len() + 2
                &&& draws@.take(border(width, height).len() as int) == border(width, height)
                &&& draws@[draws@.len() - 2] == segment_at(center((width, height)))
                &&& draws@.last().glyph is Food
                &&& (draws@.last().x, draws@.last().y) == state@.food
            },
            Err(FoodError::NoInterior) => !has_interior((width, height)),
            Err(FoodError::BoardFull) => {
                &&& has_interior((width, height))
                &&& is_food_site(center((width, height)), center((width, height)).0, (width, height))
            },
        },
{
    if !interior_exists((width, height)) {
        return Err(FoodError::NoInterior);
    }
    let mut draws = draw_border(width, height);
    match GameState::new((width, height)) {
        Ok((state, first)) => {
            draws.push(first[0]);
            draws.push(first[1]);
            assert(draws@.take(border(width, height).len() as int) =~= border(width, height));
            Ok((state, draws))
        },
        Err(e) => Err(e),
    }
}

/// A tick that ends without a collision leaves a game in play, provided that
/// the food of a tick that eats is placed off the grown snake and on its
/// parity of columns.
pub proof fn lemma_moved_wf(before: GameModel, fresh: (u16, u16), size: (u16, u16))
    requires
        before.wf(),
        !before.moved(fresh).collided(size),
        before.eats() ==> !before.moved(fresh).snake.contains(fresh) && fresh.0 % 2
            == before.snake[0].0 % 2,
    ensures
        before.moved(fresh).wf(),
{
    let after = before.moved(fresh);
    let head = before.next_head();
    assert(after.snake[0] == head);
    assert(head.0 % 2 == before.snake[0].0 % 2);
    assert forall|i: int| 0 <= i < after.snake.len() implies (#[trigger] after.snake[i]).0 % 2
        == head.0 % 2 by {
        if i > 0 {
            assert(after.snake[i] == before.snake[i - 1]);
        }
    }
    assert forall|i: int, j: int|
        0 <= i < after.snake.len() && 0 <= j < after.snake.len() && i != j implies after.snake[i]
        != after.snake[j] by {
        if i == 0 {
            assert(after.snake.skip(1)[j - 1] == after.snake[j]);
        } else if j == 0 {
            assert(after.snake.skip(1)[i - 1] == after.snake[i]);
        } else {
            assert(after.snake[i] == before.snake[i - 1]);
            assert(after.snake[j] == before.snake[j - 1]);
        }
    }
    if !before.eats() {
        assert forall|i: int| 0 <= i < after.snake.len() implies after.snake[i] != after.food by {
            if i > 0 {
                assert(after.snake[i] == before.snake[i - 1]);
            }
        }
    }
}

} // verus!
