//! The simulation core of a grid snake game.
//!
//! A single snake moves across a grid of cells, grows when it reaches the
//! food, and dies when it runs into itself or leaves the grid. This crate
//! holds the per-frame model: motion in sub-cell steps, quantisation to
//! cells, collision detection, growth and speed scaling, food placement and
//! the game-over timer. Drawing, keyboard polling and the frame clock belong
//! to the host program, which hands each frame's keys and time to
//! [`session::Session::tick`].
//!
//! Positions and speeds are fixed-point integers: one cell is
//! [`grid::UNITS_PER_CELL`] units, and time is counted in milliseconds.
//!
//! - [`grid`]: cells, rounding of sub-cell positions, saturating arithmetic.
//! - [`snake`]: the snake and its per-frame update.
//! - [`food`]: placement of the food on a random free cell.
//! - [`session`]: the game loop controller.
//!
//! Each type has a view as plain mathematical data ([`snake::SnakeView`],
//! [`session::SessionView`]); contracts are stated over these views, and the
//! laws of the model are proof functions over them.

pub mod food;
pub mod grid;
pub mod session;
pub mod snake;
