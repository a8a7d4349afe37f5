//! Paddle movement, fixed-timestep scheduling and score text for a
//! two-paddle table-tennis game.
//!
//! Lengths are held as integers in sub-units and durations in ticks: one
//! logical unit of length is `SCALE` sub-units and one second is `SCALE`
//! ticks, so a speed in units per second is also a speed in sub-units per
//! tick, and one fixed update step is a whole number of ticks.

mod config;
mod frame;
mod game;
mod paddle;
mod score;

pub use config::{
    DESIRED_FPS, EDGE_INSET, MARGIN, MIN_SCREEN_HEIGHT, NANOS_PER_SECOND, PADDLE_HEIGHT, PADDLE_WIDTH,
    PLAYER_SPEED, SCALE, STEP_TICKS, WINDOW_HEIGHT, WINDOW_WIDTH,
};
pub use frame::FrameClock;
pub use game::MainState;
pub use paddle::{HeldKeys, Player};
pub use score::{decimal_string, score_text};
