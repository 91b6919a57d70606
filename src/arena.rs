//! Fixed dimensions and tunables of the arena.
use vstd::prelude::*;

verus! {

/// Width of the framebuffer, in pixels.
pub const WIDTH: i32 = 512;

/// Height of the framebuffer, in pixels.
pub const HEIGHT: i32 = 512;

/// Margin between the framebuffer's edge and the playable area.
pub const WALL_OFFSET: i32 = 5;

/// Smallest x a dot's centre may take.
pub const MIN_X: i32 = WALL_OFFSET;

/// Largest x a dot's centre may take.
pub const MAX_X: i32 = WIDTH - WALL_OFFSET;

/// Smallest y a dot's centre may take.
pub const MIN_Y: i32 = WALL_OFFSET;

/// Largest y a dot's centre may take.
pub const MAX_Y: i32 = HEIGHT - WALL_OFFSET;

/// Where the dot starts: half of the framebuffer's side.
pub const CENTER_X: i32 = 256;

/// Where the dot starts: half of the framebuffer's side.
pub const CENTER_Y: i32 = 256;

/// Width that the dot starts with and that every target has.
pub const DOT_WIDTH: i32 = 11;

/// Height that the dot starts with and that every target has.
pub const DOT_HEIGHT: i32 = 11;

/// Velocities are counted in hundredths of a pixel per tick.
pub const SUBPIXELS: i32 = 100;

/// Speed cap: ten pixels per tick.
pub const DOT_MAX_VELOCITY: i32 = 1000;

/// Acceleration per tick while a direction is held: a quarter pixel.
pub const DOT_UP_DELTA: i32 = 25;

/// Deceleration per tick while coasting or reversing: a twentieth of a pixel.
pub const DOT_DOWN_DELTA: i32 = 5;

/// Colour channels are counted in hundredths of full intensity.
pub const FULL: i32 = 100;

/// Level at which both colour channels start: half of `FULL`.
pub const START_COLOR: i32 = 50;

/// Change of a colour channel on a tick with a directional press.
pub const INCR_COLOR: i32 = 5;

/// Growth of the background's blue channel from one pixel index to the next.
pub const BLUE_STEP: usize = 5;

} // verus!
