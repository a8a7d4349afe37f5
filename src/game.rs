use vstd::prelude::*;

use crate::config::{EDGE_INSET, MARGIN, MIN_SCREEN_HEIGHT, PADDLE_WIDTH, SCALE, STEP_TICKS, WINDOW_WIDTH};
use crate::frame::{tick, FrameClock};
use crate::paddle::{in_bounds, lemma_move_stays_in_bounds, moved_y, HeldKeys, Player};
use crate::score::{score_line, score_text};

verus! {

/// Vertical position after `n` fixed steps of `dt` ticks each from `y`,
/// with the same keys held throughout.
pub open spec fn moved_y_steps(y: int, up: bool, down: bool, dt: int, screen_h: int, n: nat) -> int
    decreases n,
{
    if n == 0 {
        y
    } else {
        moved_y(moved_y_steps(y, up, down, dt, screen_h, (n - 1) as nat), up, down, dt, screen_h)
    }
}

/// Any number of steps of any length keeps a paddle that starts inside the
/// allowed band inside it.
pub proof fn lemma_steps_stay_in_bounds(
    y: int,
    up: bool,
    down: bool,
    dt: int,
    screen_h: int,
    n: nat,
)
    requires
        dt >= 0,
        screen_h >= MIN_SCREEN_HEIGHT,
        in_bounds(y, screen_h),
    ensures
        in_bounds(moved_y_steps(y, up, down, dt, screen_h, n), screen_h),
    decreases n,
{
    if n > 0 {
        lemma_steps_stay_in_bounds(y, up, down, dt, screen_h, (n - 1) as nat);
        lemma_move_stays_in_bounds(
            moved_y_steps(y, up, down, dt, screen_h, (n - 1) as nat),
            up,
            down,
            dt,
            screen_h,
        );
    }
}

/// The whole game: the left paddle (W and S), the right paddle (arrow keys)
/// and the clock that paces their updates.
#[derive(Clone, Copy, Debug, PartialEq, Eq)]
pub struct MainState {
    pub player: Player,
    pub opponent: Player,
    pub clock: FrameClock,
}

impl MainState {
    pub open spec fn wf(self) -> bool {
        self.clock.wf()
    }

    /// Both paddles near the top, one near each side edge, no points, and a
    /// clock that owes nothing.
    pub fn new() -> (r: MainState)
        ensures
            r.player == (Player { x: (EDGE_INSET * SCALE) as u64, y: (MARGIN * SCALE) as u64, points: 0 }),
            r.opponent == (Player {
                x: ((WINDOW_WIDTH - PADDLE_WIDTH - EDGE_INSET) * SCALE) as u64,
                y: (MARGIN * SCALE) as u64,
                points: 0,
            }),
            r.clock.owed() == 0,
            r.wf(),
    {
        MainState {
            player: Player::new(EDGE_INSET * SCALE, MARGIN * SCALE),
            opponent: Player::new((WINDOW_WIDTH - PADDLE_WIDTH - EDGE_INSET) * SCALE, MARGIN * SCALE),
            clock: FrameClock::new(),
        }
    }

    /// Adds `elapsed_ns` nanoseconds of wall-clock time and runs every fixed
    /// step now due, moving both paddles one step each time under the held
    /// keys; returns the number of steps run.
    pub fn update(&mut self, elapsed_ns: u64, keys: HeldKeys, screen_h: u32) -> (steps: u64)
        requires
            old(self).wf(),
            screen_h >= MIN_SCREEN_HEIGHT,
        ensures
            (steps as int, final(self).clock.owed()) == tick(old(self).clock.owed(), elapsed_ns as int),
            final(self).player.y == moved_y_steps(
                old(self).player.y as int,
                keys.w,
                keys.s,
                STEP_TICKS as int,
                screen_h as int,
                steps as nat,
            ),
            final(self).opponent.y == moved_y_steps(
                old(self).opponent.y as int,
                keys.up,
                keys.down,
                STEP_TICKS as int,
                screen_h as int,
                steps as nat,
            ),
            final(self).player.x == old(self).player.x,
            final(self).player.points == old(self).player.points,
            final(self).opponent.x == old(self).opponent.x,
            final(self).opponent.points == old(self).opponent.points,
            final(self).wf(),
    {
        let steps = self.clock.advance(elapsed_ns);
        let ghost start = *self;
        let mut i: u64 = 0;
        while i < steps
            invariant
                i <= steps,
                screen_h >= MIN_SCREEN_HEIGHT,
                self.clock == start.clock,
                self.player.y == moved_y_steps(
                    start.player.y as int,
                    keys.w,
                    keys.s,
                    STEP_TICKS as int,
                    screen_h as int,
                    i as nat,
                ),
                self.opponent.y == moved_y_steps(
                    start.opponent.y as int,
                    keys.up,
                    keys.down,
                    STEP_TICKS as int,
                    screen_h as int,
                    i as nat,
                ),
                self.player.x == start.player.x,
                self.player.points == start.player.points,
                self.opponent.x == start.opponent.x,
                self.opponent.points == start.opponent.points,
            decreases steps - i,
        {
            self.player.handle_input(keys, STEP_TICKS, screen_h, false);
            self.opponent.handle_input(keys, STEP_TICKS, screen_h, true);
            i = i + 1;
        }
        steps
    }

    /// The score line shown above the table: `"<left> - <right>"`.
    pub fn score_text(&self) -> (r: String)
        ensures
            r@ == score_line(self.player.points as nat, self.opponent.points as nat),
    {
        score_text(self.player.points, self.opponent.points)
    }
}

} // verus!
