//! The fixed arena geometry and timing constants, in half-pixel units.
//!
//! The arena is 800 by 600 pixels (1600 by 1200 units). A paddle top may sit
//! anywhere in `[0, PLAYER_MAX_Y]`; the ball bounces off the horizontal walls
//! at `y < 0` and `y > WALL_MAX_Y`; a ball past `LEFT_GOAL_X` or `RIGHT_GOAL_X`
//! is in a paddle zone and either hits the paddle there or misses.

use vstd::prelude::*;

verus! {

/// Paddle movement step per frame: 10 pixels.
pub const SPEED: i64 = 20;

/// Ball speed per axis per frame: 6.5 pixels. Only the sign of a velocity
/// component ever changes during a rally.
pub const BALL_SPEED: i64 = 13;

/// Lowest allowed paddle top: 550 pixels.
pub const PLAYER_MAX_Y: i64 = 1100;

/// The ball bounces when its centre passes below 0 or above 590 pixels.
pub const WALL_MAX_Y: i64 = 1180;

/// A ball left of 10 pixels is in the left paddle zone.
pub const LEFT_GOAL_X: i64 = 20;

/// A ball right of 780 pixels is in the right paddle zone.
pub const RIGHT_GOAL_X: i64 = 1560;

/// The hit-box extends 10 pixels above the paddle top...
pub const HITBOX_ABOVE: i64 = 20;

/// ...and 60 pixels below it (the paddle is drawn 50 pixels tall).
pub const HITBOX_BELOW: i64 = 120;

/// The ball spawns, and respawns after every miss, at (50, 50) pixels.
pub const SPAWN_X: i64 = 100;

/// See `SPAWN_X`.
pub const SPAWN_Y: i64 = 100;

/// Both paddles recentre to 50 pixels after every miss.
pub const RESET_PLAYER_Y: i64 = 100;

/// After a miss the simulation holds still for 400 milliseconds.
pub const FREEZE_MS: u64 = 400;

/// Headroom bound on coordinates and velocities: one frame of arithmetic on
/// values inside this bound cannot overflow an `i64`. It is a machine limit
/// only; the game never leaves the arena's few thousand units.
pub const COORD_LIMIT: i64 = 1_000_000_000;

/// A value small enough that one frame's additions on it stay inside `i64`.
pub open spec fn fits(v: int) -> bool {
    -COORD_LIMIT <= v <= COORD_LIMIT
}

} // verus!
