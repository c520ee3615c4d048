//! The fixed-timestep frame clock: how many simulation steps a frame runs.

use vstd::arithmetic::div_mod::{lemma_fundamental_div_mod, lemma_mod_pos_bound};
use vstd::prelude::*;

verus! {

/// Shortest simulation timestep the controls offer, in microseconds.
pub const MIN_TIMESTEP_MICROS: u64 = 4_000;

/// Longest simulation timestep the controls offer, in microseconds.
pub const MAX_TIMESTEP_MICROS: u64 = 100_000;

/// Steps owed for a frame: whole timesteps in the carried time plus the
/// frame's elapsed time.
pub open spec fn clock_steps(leftover: nat, elapsed: nat, timestep: nat) -> nat {
    (leftover + elapsed) / timestep
}

/// Time carried to the next frame: what is left after the whole timesteps.
pub open spec fn clock_leftover(leftover: nat, elapsed: nat, timestep: nat) -> nat {
    (leftover + elapsed) % timestep
}

/// Sum of a sequence of elapsed times.
pub open spec fn total_elapsed(elapsed: Seq<nat>) -> nat
    decreases elapsed.len(),
{
    if elapsed.len() == 0 {
        0
    } else {
        total_elapsed(elapsed.drop_last()) + elapsed.last()
    }
}

/// (total steps, final leftover) of a clock that starts with `leftover` and
/// is fed the frames' elapsed times in order, at a fixed timestep.
pub open spec fn run_clock(leftover: nat, elapsed: Seq<nat>, timestep: nat) -> (nat, nat)
    decreases elapsed.len(),
{
    if elapsed.len() == 0 {
        (0, leftover)
    } else {
        let (steps, rest) = run_clock(leftover, elapsed.drop_last(), timestep);
        (
            steps + clock_steps(rest, elapsed.last(), timestep),
            clock_leftover(rest, elapsed.last(), timestep),
        )
    }
}

/// Fixed-timestep accumulator: converts the wall-clock time of each frame
/// into a whole number of simulation steps and carries the remainder to the
/// next frame, so that no time is lost or gained over a run.
///
/// Times are integer ticks (the controls use microseconds).
pub struct FrameClock {
    leftover: u64,
}

impl View for FrameClock {
    type V = nat;

    /// The time carried over from earlier frames.
    closed spec fn view(&self) -> nat {
        self.leftover as nat
    }
}

impl FrameClock {
    pub fn new() -> (r: Self)
        ensures
            r@ == 0,
    {
        FrameClock { leftover: 0 }
    }

    /// The time carried over from earlier frames, not yet simulated.
    pub fn leftover(&self) -> (r: u64)
        ensures
            r == self@,
    {
        self.leftover
    }

    /// Adds a frame's elapsed time and takes out the whole timesteps in it.
    pub fn accumulate(&mut self, elapsed: u64, timestep: u64) -> (steps: u64)
        requires
            timestep > 0,
            old(self)@ + elapsed <= u64::MAX,
        ensures
            steps == clock_steps(old(self)@, elapsed as nat, timestep as nat),
            final(self)@ == clock_leftover(old(self)@, elapsed as nat, timestep as nat),
            final(self)@ < timestep,
    {
        let total: u64 = self.leftover + elapsed;
        self.leftover = total % timestep;
        total / timestep
    }

    /// Steps to run this frame: while playing, what the accumulator owes;
    /// while paused, one step if a single step was asked for and none
    /// otherwise, and the carried time is kept as it is.
    pub fn frame_steps(&mut self, playing: bool, single_step: bool, elapsed: u64, timestep: u64) -> (steps: u64)
        requires
            timestep > 0,
            playing ==> old(self)@ + elapsed <= u64::MAX,
        ensures
            playing ==> steps == clock_steps(old(self)@, elapsed as nat, timestep as nat)
                && final(self)@ == clock_leftover(old(self)@, elapsed as nat, timestep as nat),
            !playing ==> final(self)@ == old(self)@ && steps == (if single_step { 1nat } else { 0nat }),
    {
        if playing {
            self.accumulate(elapsed, timestep)
        } else if single_step {
            1
        } else {
            0
        }
    }
}

/// Over any run of frames at a fixed timestep `T`, the simulated time
/// (steps times `T`) plus the time still carried equals the time carried at
/// the start plus all elapsed time, and the carried time stays below `T`:
/// starting from nothing, the simulated time trails the elapsed time by less
/// than one timestep and never runs ahead of it.
pub proof fn lemma_accumulator_conservation(leftover: nat, elapsed: Seq<nat>, timestep: nat)
    requires
        timestep > 0,
        leftover < timestep,
    ensures
        run_clock(leftover, elapsed, timestep).0 * timestep + run_clock(leftover, elapsed, timestep).1
            == leftover + total_elapsed(elapsed),
        run_clock(leftover, elapsed, timestep).1 < timestep,
        leftover == 0 ==> run_clock(leftover, elapsed, timestep).0 * timestep <= total_elapsed(elapsed),
        leftover == 0 ==> total_elapsed(elapsed) < run_clock(leftover, elapsed, timestep).0 * timestep
            + timestep,
    decreases elapsed.len(),
{
    if elapsed.len() > 0 {
        let prefix = elapsed.drop_last();
        lemma_accumulator_conservation(leftover, prefix, timestep);
        let (steps, rest) = run_clock(leftover, prefix, timestep);
        let x = rest + elapsed.last();
        lemma_fundamental_div_mod(x as int, timestep as int);
        lemma_mod_pos_bound(x as int, timestep as int);
        let q = x / timestep;
        assert((steps + q) * timestep == steps * timestep + q * timestep) by (nonlinear_arith);
        assert(q * timestep == timestep * q) by (nonlinear_arith);
        assert(run_clock(leftover, elapsed, timestep) == (steps + q, x % timestep));
        assert(total_elapsed(elapsed) == total_elapsed(prefix) + elapsed.last());
    } else {
        assert(0 * timestep == 0);
    }
}

} // verus!
