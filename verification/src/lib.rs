//! Conway's Game of Life on a bounded square grid.
//!
//! A [`Grid`] holds one generation. It is made from a list of live cells, from rows, or by
//! coin flips, and [`Grid::next_generation`] gives the generation that follows it. The grid
//! does not wrap around: beyond its edges every position counts as dead.
//!
//! Contracts speak of a grid through its view, a sequence of rows of [`State`]. The modules
//! `neighbourhood` and `rules` define what a generation is on that view, and `laws` proves
//! what holds of every generation.

pub mod direction;
pub mod equality;
pub mod grid;
pub mod laws;
pub mod neighbourhood;
pub mod random;
pub mod rules;
pub mod state;
pub mod text;

pub use direction::Direction;
pub use grid::{Grid, GridError};
pub use neighbourhood::neighbours_state;
pub use rules::state_based_on_neighbours;
pub use state::State;
