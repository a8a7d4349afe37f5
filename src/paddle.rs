use vstd::prelude::*;

use crate::config::{MARGIN, MIN_SCREEN_HEIGHT, PADDLE_HEIGHT, PLAYER_SPEED, SCALE};

verus! {

/// Which movement keys are held down at the moment of an update.
#[derive(Clone, Copy, Debug, PartialEq, Eq)]
pub struct HeldKeys {
    pub w: bool,
    pub s: bool,
    pub up: bool,
    pub down: bool,
}

/// A paddle: its top-left corner in sub-units and its score.
#[derive(Clone, Copy, Debug, PartialEq, Eq)]
pub struct Player {
    pub x: u64,
    pub y: u64,
    pub points: u16,
}

/// Lowest allowed vertical position of a paddle, in sub-units.
pub open spec fn min_y() -> int {
    MARGIN * SCALE
}

/// Highest allowed vertical position of a paddle in a window `screen_h`
/// units tall, in sub-units.
pub open spec fn max_y(screen_h: int) -> int {
    (screen_h - PADDLE_HEIGHT - MARGIN) * SCALE
}

/// `v` brought into `[lo, hi]`.
pub open spec fn clamp(v: int, lo: int, hi: int) -> int {
    if v < lo {
        lo
    } else if v > hi {
        hi
    } else {
        v
    }
}

/// Whether a vertical position lies in the allowed band of a window
/// `screen_h` units tall.
pub open spec fn in_bounds(y: int, screen_h: int) -> bool {
    min_y() <= y <= max_y(screen_h)
}

/// Distance, in sub-units, that a paddle covers in `dt` ticks.
pub open spec fn travel(dt: int) -> int {
    PLAYER_SPEED * dt
}

/// Vertical position after `dt` ticks from `y`: up by the travel if `up`
/// is held, down by it if `down` is held, then kept in the allowed band.
pub open spec fn moved_y(y: int, up: bool, down: bool, dt: int, screen_h: int) -> int {
    let raised = if up { y - travel(dt) } else { y };
    let lowered = if down { raised + travel(dt) } else { raised };
    clamp(lowered, min_y(), max_y(screen_h))
}

/// The pair of keys, (up, down), that moves a paddle under a control scheme:
/// the arrow keys, or W and S.
pub open spec fn scheme_keys(keys: HeldKeys, use_arrows: bool) -> (bool, bool) {
    if use_arrows {
        (keys.up, keys.down)
    } else {
        (keys.w, keys.s)
    }
}

/// Whatever the keys and however long the step, a paddle that starts inside
/// the allowed band ends inside it.
pub proof fn lemma_move_stays_in_bounds(y: int, up: bool, down: bool, dt: int, screen_h: int)
    requires
        dt >= 0,
        screen_h >= MIN_SCREEN_HEIGHT,
        in_bounds(y, screen_h),
    ensures
        in_bounds(moved_y(y, up, down, dt, screen_h), screen_h),
{
}

/// Holding only the up key for `dt` ticks, with no edge reached, raises the
/// paddle by exactly the speed times `dt`.
pub proof fn lemma_up_moves_by_travel(y: int, dt: int, screen_h: int)
    requires
        dt >= 0,
        in_bounds(y, screen_h),
        in_bounds(y - travel(dt), screen_h),
    ensures
        moved_y(y, true, false, dt, screen_h) == y - PLAYER_SPEED * dt,
{
}

/// Holding only the down key for `dt` ticks, with no edge reached, lowers
/// the paddle by exactly the speed times `dt`.
pub proof fn lemma_down_moves_by_travel(y: int, dt: int, screen_h: int)
    requires
        dt >= 0,
        in_bounds(y, screen_h),
        in_bounds(y + travel(dt), screen_h),
    ensures
        moved_y(y, false, true, dt, screen_h) == y + PLAYER_SPEED * dt,
{
}

/// Holding neither key, or both, leaves a paddle inside the band where it is.
pub proof fn lemma_balanced_keys_hold_still(y: int, held: bool, dt: int, screen_h: int)
    requires
        dt >= 0,
        in_bounds(y, screen_h),
    ensures
        moved_y(y, held, held, dt, screen_h) == y,
{
}

impl Player {
    /// A paddle at the given position with no points.
    pub fn new(x: u64, y: u64) -> (r: Player)
        ensures
            r.x == x,
            r.y == y,
            r.points == 0,
    {
        Player { x, y, points: 0 }
    }

    /// Moves the paddle for `dt` ticks under the keys of its control scheme,
    /// then keeps it inside the allowed band of a window `screen_h` units tall.
    pub fn handle_input(&mut self, keys: HeldKeys, dt: u64, screen_h: u32, use_arrows: bool)
        requires
            screen_h >= MIN_SCREEN_HEIGHT,
        ensures
            final(self).y == moved_y(
                old(self).y as int,
                scheme_keys(keys, use_arrows).0,
                scheme_keys(keys, use_arrows).1,
                dt as int,
                screen_h as int,
            ),
            in_bounds(final(self).y as int, screen_h as int),
            final(self).x == old(self).x,
            final(self).points == old(self).points,
    {
        let key_up = if use_arrows { keys.up } else { keys.w };
        let key_down = if use_arrows { keys.down } else { keys.s };
        let lo: i128 = (MARGIN as i128) * (SCALE as i128);
        let hi: i128 = ((screen_h as i128) - (PADDLE_HEIGHT as i128) - (MARGIN as i128)) * (SCALE as i128);
        let step: i128 = (PLAYER_SPEED as i128) * (dt as i128);
        let mut y: i128 = self.y as i128;
        if key_up {
            y = y - step;
        }
        if key_down {
            y = y + step;
        }
        let c: i128 = if y < lo {
            lo
        } else if y > hi {
            hi
        } else {
            y
        };
        assert(hi <= u64::MAX) by (nonlinear_arith)
            requires
                hi == (screen_h - PADDLE_HEIGHT - MARGIN) * SCALE,
                screen_h <= u32::MAX,
        ;
        self.y = c as u64;
    }
}

} // verus!
