//! Fixed-step simulation core of a side-scrolling arcade game.
//!
//! A bird falls under gravity and jumps on request; pipes with a gap scroll
//! in from the right; the session ends when the bird touches a pipe or falls
//! below the screen. All quantities are integers: lengths are counted in
//! hundredths of a pixel and time in simulation ticks, so that every constant
//! of the game is exact and a run is reproducible bit for bit.

pub mod audio;
pub mod bird;
pub mod config;
pub mod geometry;
pub mod input;
pub mod laws;
pub mod pipe;
pub mod render;
pub mod session;
pub mod stream;
