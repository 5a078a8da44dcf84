//! Conway's Game of Life on a bounded grid, with verified generation rules.

pub mod conways;
pub mod game;
pub mod laws;

pub use conways::{CellState, ConwaysMap};
pub use game::{CellEdit, GameState};
