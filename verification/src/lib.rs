//! A verified rules engine for two-player tic-tac-toe on a fixed 3x3 board.
//!
//! The engine is a state machine: a `Game` owns a `Board`, alternates the
//! turn between the two players, validates moves, and classifies terminal
//! outcomes (a win for either player, or a draw). All operations are total
//! except `Position` construction, which rejects out-of-range coordinates.

pub mod laws;
pub mod model;
