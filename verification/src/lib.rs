//! A falling-block puzzle on a fixed 10 x 20 playfield.
//!
//! The crate holds the simulation only: the seven tetromino shapes, the
//! collision test, rotation with rollback, locking, row clearing and the
//! gravity tick. Drawing, input and the clock belong to the caller, which
//! hands in timestamps as whole milliseconds.

pub mod game;
pub mod grid;
pub mod laws;
pub mod piece;
pub mod piece_type;
mod random;
pub mod shape;
