use vstd::prelude::*;

use vstd::arithmetic::div_mod::lemma_fundamental_div_mod_converse;

use crate::config::{DESIRED_FPS, NANOS_PER_SECOND};

verus! {

/// Accumulator of a fixed-timestep loop.
///
/// Wall-clock time is owed to the simulation in units of a nanosecond
/// times the update rate, so that one update step costs exactly
/// `NANOS_PER_SECOND` of them and no rounding ever happens.
#[derive(Clone, Copy, Debug, PartialEq, Eq)]
pub struct FrameClock {
    pending: u64,
}

/// Steps due and time still owed after `elapsed_ns` nanoseconds are added
/// to `pending` owed units: whole steps are taken while at least one step's
/// worth is owed.
pub open spec fn tick(pending: int, elapsed_ns: int) -> (int, int) {
    let owed = pending + elapsed_ns * DESIRED_FPS;
    (owed / (NANOS_PER_SECOND as int), owed % (NANOS_PER_SECOND as int))
}

/// Total of a run of intervals.
pub open spec fn total_ns(parts: Seq<u64>) -> int
    decreases parts.len(),
{
    if parts.len() == 0 {
        0
    } else {
        parts[0] + total_ns(parts.drop_first())
    }
}

/// Steps taken over a run of callbacks, each bringing one interval, starting
/// with `pending` owed; and what is owed at the end.
pub open spec fn run_clock(pending: int, parts: Seq<u64>) -> (int, int)
    decreases parts.len(),
{
    if parts.len() == 0 {
        (0, pending)
    } else {
        let first = tick(pending, parts[0] as int);
        let rest = run_clock(first.1, parts.drop_first());
        (first.0 + rest.0, rest.1)
    }
}

impl FrameClock {
    pub closed spec fn owed(self) -> int {
        self.pending as int
    }

    /// Whether less than one step's worth of time is owed, as between two
    /// callbacks.
    pub open spec fn wf(self) -> bool {
        0 <= self.owed() < NANOS_PER_SECOND
    }

    /// A clock that owes nothing.
    pub fn new() -> (r: FrameClock)
        ensures
            r.owed() == 0,
            r.wf(),
    {
        FrameClock { pending: 0 }
    }

    /// Adds `elapsed_ns` nanoseconds of wall-clock time and takes out every
    /// whole step now owed; returns how many steps that was.
    pub fn advance(&mut self, elapsed_ns: u64) -> (steps: u64)
        requires
            old(self).wf(),
        ensures
            (steps as int, final(self).owed()) == tick(old(self).owed(), elapsed_ns as int),
            final(self).wf(),
    {
        let scaled: u128 = (elapsed_ns as u128) * (DESIRED_FPS as u128);
        assert(scaled <= u64::MAX * 75) by (nonlinear_arith)
            requires
                scaled == elapsed_ns * 75,
                elapsed_ns <= u64::MAX,
        ;
        let owed: u128 = (self.pending as u128) + scaled;
        let steps: u128 = owed / (NANOS_PER_SECOND as u128);
        let rest: u128 = owed % (NANOS_PER_SECOND as u128);
        assert(steps <= u64::MAX) by (nonlinear_arith)
            requires
                steps == owed / 1_000_000_000,
                owed <= 1_000_000_000 + u64::MAX * 75,
        ;
        self.pending = rest as u64;
        steps as u64
    }
}

proof fn lemma_run_clock(pending: int, parts: Seq<u64>)
    requires
        0 <= pending < NANOS_PER_SECOND,
    ensures
        run_clock(pending, parts).0 * NANOS_PER_SECOND + run_clock(pending, parts).1
            == pending + total_ns(parts) * DESIRED_FPS,
        0 <= run_clock(pending, parts).1 < NANOS_PER_SECOND,
        run_clock(pending, parts).0 >= 0,
    decreases parts.len(),
{
    if parts.len() > 0 {
        let owed = pending + parts[0] * DESIRED_FPS;
        let first = tick(pending, parts[0] as int);
        assert(owed == first.0 * NANOS_PER_SECOND + first.1 && 0 <= first.1 < NANOS_PER_SECOND
            && first.0 >= 0) by (nonlinear_arith)
            requires
                owed >= 0,
                first.0 == owed / 1_000_000_000,
                first.1 == owed % 1_000_000_000,
        ;
        lemma_run_clock(first.1, parts.drop_first());
        let rest = run_clock(first.1, parts.drop_first());
        assert((first.0 + rest.0) * NANOS_PER_SECOND == first.0 * NANOS_PER_SECOND + rest.0
            * NANOS_PER_SECOND) by (nonlinear_arith);
        assert(total_ns(parts) * DESIRED_FPS == parts[0] * DESIRED_FPS + total_ns(
            parts.drop_first(),
        ) * DESIRED_FPS) by (nonlinear_arith)
            requires
                total_ns(parts) == parts[0] + total_ns(parts.drop_first()),
        ;
    }
}

/// However a stretch of wall-clock time is cut into callbacks, a clock that
/// starts owing nothing takes exactly `floor(total * rate / 1 s)` steps over
/// it.
pub proof fn lemma_steps_independent_of_split(parts: Seq<u64>)
    ensures
        run_clock(0, parts).0 == (total_ns(parts) * DESIRED_FPS) / (NANOS_PER_SECOND as int),
{
    lemma_run_clock(0, parts);
    let r = run_clock(0, parts);
    lemma_fundamental_div_mod_converse(
        total_ns(parts) * DESIRED_FPS,
        NANOS_PER_SECOND as int,
        r.0,
        r.1,
    );
}

} // verus!
