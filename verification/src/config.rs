//! The constants of the game and the size of the visible screen.
//!
//! Lengths are in world units (hundredths of a pixel), velocities in world
//! units per tick, durations in ticks.

use vstd::prelude::*;
use crate::geometry::UNITS_PER_PIXEL;

verus! {

/// Sprites are drawn at this multiple of their pixel size.
pub const SCALE: i64 = 3;

/// Simulation ticks per second.
pub const DESIRED_FPS: u32 = 60;

/// Downward acceleration per tick (0.6 pixel).
pub const GRAVITY: i64 = 60;

/// Gravity stops accelerating the bird once its downward speed reaches this (16 pixels).
pub const MAX_VELOCITY: i64 = 1600;

/// Vertical velocity right after a jump (13.5 pixels upward).
pub const JUMP_VELOCITY: i64 = -1350;

/// Ticks that must pass between two jumps (a quarter of a second).
pub const JUMP_COOLDOWN: i64 = 15;

/// Leftward movement of every pipe per tick (4 pixels).
pub const PIPE_SPEED: i64 = 400;

/// Height of the gap between the upper and the lower barrier (200 pixels).
pub const PIPE_GAP: i64 = 20000;

/// Width of a pipe as far as leaving the screen is concerned (86 pixels).
pub const PIPE_WIDTH: i64 = 8600;

/// Ticks between two spawns.
pub const PIPE_FREQ: i64 = 96;

/// Smallest distance of the gap's lower edge from the bottom of the screen (86 pixels).
pub const SPRITE_MARGIN: i64 = 8600;

/// Width of a hitbox in world units per pixel of sprite width.
pub const PIPE_HITBOX_FACTOR: i64 = 300;

/// The bird's hitbox is nine tenths of its drawn size: 3 * 0.9 * 100 units per sprite pixel.
pub const BIRD_HITBOX_FACTOR: i64 = 270;

/// Width of the window as it opens, in pixels.
pub const INIT_SCREEN_WIDTH: u32 = 800;

/// Height of the window as it opens, in pixels.
pub const INIT_SCREEN_HEIGHT: u32 = 600;

/// Size of the visible screen in pixels.
#[derive(Clone, Copy, Debug, PartialEq, Eq, Structural)]
pub struct ViewportSize {
    pub width: u32,
    pub height: u32,
}

impl ViewportSize {
    /// Width in world units.
    pub open spec fn spec_width(self) -> int {
        self.width * UNITS_PER_PIXEL
    }

    /// Height in world units.
    pub open spec fn spec_height(self) -> int {
        self.height * UNITS_PER_PIXEL
    }

    pub fn new(width: u32, height: u32) -> (v: ViewportSize)
        ensures
            v.width == width,
            v.height == height,
    {
        ViewportSize { width, height }
    }

    pub fn width_units(&self) -> (w: i64)
        ensures
            w == self.spec_width(),
    {
        self.width as i64 * UNITS_PER_PIXEL
    }

    pub fn height_units(&self) -> (h: i64)
        ensures
            h == self.spec_height(),
    {
        self.height as i64 * UNITS_PER_PIXEL
    }
}

} // verus!
