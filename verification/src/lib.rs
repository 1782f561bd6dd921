//! A verified solver for Mijnlieff, a two-player abstract strategy game
//! played on a 4x4 grid.
//!
//! The solver walks the full game tree from a starting position and reports
//! the game-theoretic outcome for the player to move, together with the
//! number of complete games examined along the way.

pub mod board;
pub mod game;
pub mod hand;
pub mod solver;
pub mod status;
pub mod tile;
