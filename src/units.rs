//! Fixed-point units and the game's tuning constants.
use vstd::prelude::*;

verus! {

/// Length units in one pixel.
pub const UNITS_PER_PIXEL: i64 = 1_000_000_000_000;

/// Velocity units (length units per microsecond) in one pixel per second.
pub const SPEED_PER_PIXEL_PER_SECOND: i64 = 1_000_000;

/// Width of the playing field.
pub const WINDOW_WIDTH: i64 = 1280 * UNITS_PER_PIXEL;

/// Height of the playing field.
pub const WINDOW_HEIGHT: i64 = 720 * UNITS_PER_PIXEL;

/// Half the width of the playing field: the distance from its centre to
/// its left or right edge.
pub const HALF_WINDOW_WIDTH: i64 = 640 * UNITS_PER_PIXEL;

/// Half the height of the playing field: the distance from its centre to
/// its top or bottom edge.
pub const HALF_WINDOW_HEIGHT: i64 = 360 * UNITS_PER_PIXEL;

/// Downward acceleration of the player: 2000 pixels per second squared,
/// which is 2000 length units per microsecond squared.
pub const GRAVITY_STRENGTH: i64 = 2000;

/// Upward speed that a jump sets.
pub const JUMP_STRENGTH: i64 = 800 * SPEED_PER_PIXEL_PER_SECOND;

/// Speed at which pipes scroll to the left.
pub const PIPE_SPEED: i64 = 450 * SPEED_PER_PIXEL_PER_SECOND;

/// Vertical opening between the two pipes of a pair.
pub const PIPE_GAP: i64 = 225 * UNITS_PER_PIXEL;

/// Side of the square player.
pub const PLAYER_SIZE: i64 = 32 * UNITS_PER_PIXEL;

/// Horizontal position at which the player starts.
pub const PLAYER_START_X: i64 = -320 * UNITS_PER_PIXEL;

/// Width of a pipe.
pub const PIPE_WIDTH: i64 = 32 * UNITS_PER_PIXEL;

/// Height of a pipe.
pub const PIPE_HEIGHT: i64 = WINDOW_HEIGHT;

/// How far above the top edge the player may rise before its upward
/// speed is taken away.
pub const CEILING_MARGIN: i64 = 100 * UNITS_PER_PIXEL;

/// Time between two pipe spawns, in microseconds.
pub const PIPE_SPAWN_PERIOD: u64 = 2_000_000;

/// Lowest top edge of the lower pipe of a pair (inclusive).
pub const PIPE_BOTTOM_MIN: i64 = -HALF_WINDOW_HEIGHT;

/// Highest top edge of the lower pipe of a pair (exclusive).
pub const PIPE_BOTTOM_MAX: i64 = HALF_WINDOW_HEIGHT - PIPE_GAP;

} // verus!
