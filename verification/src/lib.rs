//! The state engine of a terminal snake game: headings, the grid and its
//! margins, food placement, and the tick that moves the snake.
//!
//! Nothing here touches a terminal. Every operation that changes what is on
//! screen returns the draw commands for the caller to execute.

pub mod body;
pub mod direction;
pub mod food;
pub mod game;
pub mod grid;
pub mod screen;

pub use direction::Direction;
pub use food::{draw_food_at_random_pos, try_food_site, FoodError};
pub use game::{initialize_game, GameModel, GameState, Tick};
pub use screen::{draw_border, DrawCommand, FoodStyle, Glyph};
