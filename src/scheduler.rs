//! The fixed-rate tick clock: one cartridge step per wake at most, however
//! much time has passed, and the instant of the next wake.
use vstd::prelude::*;

verus! {

/// Length of one tick in nanoseconds: a sixtieth of a second, truncated to
/// whole nanoseconds.
pub const TICK_NANOS: u64 = 16_666_666;

/// The tick that `elapsed` nanoseconds after the first tick falls in.
pub open spec fn target_tick(elapsed: u64) -> nat {
    (elapsed / TICK_NANOS) as nat
}

/// What one wake of the scheduler decided.
#[derive(Clone, Copy, Debug, PartialEq, Eq, Structural)]
pub struct Wake {
    /// Whether a cartridge step runs at this wake.
    pub step: bool,
    /// The tick the clock has reached.
    pub tick: u64,
    /// When to wake next, in nanoseconds after the first tick: the start of
    /// the tick after `tick`.
    pub next_wake: u64,
}

/// The decision of a wake at `elapsed` nanoseconds after the first tick,
/// with `last` the last tick a step ran for.
pub open spec fn wake_of(last: u64, elapsed: u64) -> Wake {
    Wake {
        step: target_tick(elapsed) > last,
        tick: target_tick(elapsed) as u64,
        next_wake: (TICK_NANOS * (target_tick(elapsed) + 1)) as u64,
    }
}

/// The clock's state: the last tick a cartridge step ran for.
#[derive(Clone, Copy, Debug, PartialEq, Eq, Structural)]
pub struct Scheduler {
    pub last_tick: u64,
}

impl Scheduler {
    /// A clock that has run no step; tick 0 is the first tick.
    pub fn new() -> (r: Scheduler)
        ensures
            r.last_tick == 0,
    {
        Scheduler { last_tick: 0 }
    }

    /// One wake at `elapsed` nanoseconds after the first tick. A step runs
    /// when the clock's tick is past the last one stepped, and the clock
    /// then records that tick: missed ticks are skipped, not replayed.
    pub fn wake(&mut self, elapsed: u64) -> (r: Wake)
        requires
            elapsed <= u64::MAX - TICK_NANOS,
        ensures
            r == wake_of(old(self).last_tick, elapsed),
            final(self).last_tick == (if r.step {
                r.tick
            } else {
                old(self).last_tick
            }),
    {
        let tick = elapsed / TICK_NANOS;
        let step = tick > self.last_tick;
        if step {
            self.last_tick = tick;
        }
        assert(TICK_NANOS * (tick + 1) <= elapsed + TICK_NANOS) by (nonlinear_arith)
            requires
                tick == elapsed / TICK_NANOS,
        ;
        Wake { step, tick, next_wake: TICK_NANOS * (tick + 1) }
    }
}

/// Frame skipping: a wake after a jump of more than two ticks past the last
/// stepped tick runs one step, and the clock records the tick the time
/// falls in, not one in between.
pub proof fn lemma_frame_skip(last: u64, elapsed: u64)
    requires
        elapsed >= (last as int + 3) * TICK_NANOS,
    ensures
        wake_of(last, elapsed).step,
        wake_of(last, elapsed).tick == elapsed / TICK_NANOS,
        wake_of(last, elapsed).tick >= last + 3,
{
    assert((elapsed / TICK_NANOS) >= last + 3) by (nonlinear_arith)
        requires
            elapsed >= (last as int + 3) * TICK_NANOS,
    ;
}

} // verus!
