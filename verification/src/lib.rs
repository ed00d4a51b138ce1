//! A snake game engine.
//!
//! A snake moves over a board of cells, eats fruit, grows, and dies when it
//! runs off the board or into itself. This crate holds the rules: the board
//! and what occupies it ([`Grid`]), the directions of travel
//! ([`Direction`]), the snake with its moves, turns and growth ([`Snake`]),
//! and the run that ticks both on two timers ([`Game`]). Windows, keys and
//! drawing are left to the program around it.
//!
//! Contracts speak of the views [`GridView`], [`SnakeView`] and
//! [`GameView`]. Chance comes from `rand`; each function that draws a
//! number has a twin that takes the number as an argument, with an exact
//! contract.

pub mod block;
pub mod game;
pub mod grid;
pub mod random;
pub mod snake;
pub mod utils;

pub use block::{Block, BlockType};
pub use game::{status_line, Game, GameView, State, Tick, MOVEMENT_INTERVAL, SPAWN_INTERVAL};
pub use grid::{Grid, GridView};
pub use snake::{Snake, SnakeView, SnekError};
pub use utils::{fruit_colour, random_fruit_colour, Direction, FruitColour};
