//! A verified tic-tac-toe game engine.
//!
//! The `board` module models the 3x3 grid of cell marks; the `game` module
//! holds the move-validation and state-transition logic, the win and draw
//! detection, and the proofs that the engine's invariants are preserved by
//! every move.

pub mod board;
pub mod game;
