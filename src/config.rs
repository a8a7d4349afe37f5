use vstd::prelude::*;

verus! {

/// Width of the window, in logical units.
pub const WINDOW_WIDTH: u64 = 1000;

/// Height of the window, in logical units.
pub const WINDOW_HEIGHT: u64 = 700;

/// Width of a paddle, in logical units.
pub const PADDLE_WIDTH: u64 = 10;

/// Height of a paddle, in logical units.
pub const PADDLE_HEIGHT: u64 = 100;

/// Gap kept between a paddle and the top or bottom edge, in logical units.
pub const MARGIN: u64 = 10;

/// Horizontal distance from a window edge to the nearer paddle, in logical units.
pub const EDGE_INSET: u64 = 25;

/// Vertical speed of a paddle, in logical units per second.
pub const PLAYER_SPEED: u64 = 700;

/// Fixed update steps per second of wall-clock time.
pub const DESIRED_FPS: u64 = 75;

/// Sub-units per logical unit, and ticks per second.
pub const SCALE: u64 = 3_000_000_000;

/// Nanoseconds per second.
pub const NANOS_PER_SECOND: u64 = 1_000_000_000;

/// Length of one fixed update step, in ticks.
pub const STEP_TICKS: u64 = SCALE / DESIRED_FPS;

/// Smallest window height, in logical units, that leaves room for a paddle
/// between the two margins.
pub const MIN_SCREEN_HEIGHT: u64 = PADDLE_HEIGHT + 2 * MARGIN;

} // verus!
