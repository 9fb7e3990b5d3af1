//! Conway's Game of Life on a bounded board without wraparound.
//!
//! The live cells are kept as a sparse set; one generation is computed from
//! the live cells and their neighbours only.
//!
//! - [`board`]: positions, the board's shape and the neighbourhood.
//! - [`rules`]: the transition rule and what follows from it.
//! - [`game`]: the game itself: seeding, generations, resizing.
//! - [`render`]: what a frame shows.
//! - [`control`]: what each input does to a running session.

pub mod board;
pub mod control;
pub mod game;
mod keys;
mod random;
pub mod render;
pub mod rules;
