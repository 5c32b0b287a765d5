//! Fixed-step scheduler: accumulates variable frame time and releases it in
//! whole ticks of a fixed duration. Leftover time below one tick is kept for
//! the next frame; nothing is discarded or invented. While the game is
//! paused the caller simply stops feeding deltas, so no ticks fire and the
//! accumulated overstep does not decay.
//!
//! There is no upper bound on how many ticks a single very large frame delta
//! can release; capping the catch-up burst is left as an open design choice.

use vstd::prelude::*;
use vstd::arithmetic::div_mod::{
    lemma_fundamental_div_mod, lemma_fundamental_div_mod_converse_div,
    lemma_fundamental_div_mod_converse_mod, lemma_mod_bound,
};

verus! {

/// Time accumulator decoupling the simulation tick rate from the frame
/// rate. Durations are in milliseconds.
#[derive(Clone, Copy, Debug, PartialEq, Eq, Structural)]
pub struct Simulation {
    /// Fixed duration of one simulation tick.
    pub timestep_ms: u64,
    /// Accumulated time not yet spent on ticks.
    pub overstep_ms: u64,
}

/// The standard timestep, in milliseconds. The rate goes by the name
/// "1 Hz" even though 500 ms fires twice a second; the literal value is
/// deliberately kept as is.
pub const DEFAULT_TIMESTEP_MS: u64 = 500;

impl Default for Simulation {
    /// An empty accumulator at the standard timestep.
    fn default() -> (s: Simulation)
        ensures
            s.timestep_ms == DEFAULT_TIMESTEP_MS,
            s.overstep_ms == 0,
            s.wf(),
    {
        Simulation { timestep_ms: DEFAULT_TIMESTEP_MS, overstep_ms: 0 }
    }
}

impl Simulation {
    /// A meaningful accumulator has a positive tick duration.
    pub open spec fn wf(self) -> bool {
        self.timestep_ms >= 1
    }

    /// An accumulator with the given tick duration and no stored time.
    pub fn new(timestep_ms: u64) -> (s: Simulation)
        requires
            timestep_ms >= 1,
        ensures
            s.timestep_ms == timestep_ms,
            s.overstep_ms == 0,
            s.wf(),
    {
        Simulation { timestep_ms, overstep_ms: 0 }
    }

    /// Feed one frame's wall-clock delta into the accumulator.
    pub fn accumulate(&mut self, delta_ms: u64)
        requires
            old(self).overstep_ms + delta_ms <= u64::MAX,
        ensures
            final(self).timestep_ms == old(self).timestep_ms,
            final(self).overstep_ms == old(self).overstep_ms + delta_ms,
    {
        self.overstep_ms = self.overstep_ms + delta_ms;
    }

    /// Try to spend one tick's worth of accumulated time. Returns whether a
    /// tick should run; when it does, exactly one timestep is consumed.
    pub fn expend(&mut self) -> (fired: bool)
        ensures
            final(self).timestep_ms == old(self).timestep_ms,
            fired == (old(self).overstep_ms >= old(self).timestep_ms),
            fired ==> final(self).overstep_ms == old(self).overstep_ms - old(self).timestep_ms,
            !fired ==> final(self).overstep_ms == old(self).overstep_ms,
    {
        if self.overstep_ms >= self.timestep_ms {
            self.overstep_ms = self.overstep_ms - self.timestep_ms;
            true
        } else {
            false
        }
    }

    /// Spend all accumulated whole ticks, returning how many fired. The
    /// leftover below one timestep is retained for the next frame.
    pub fn drain(&mut self) -> (fired: u64)
        requires
            old(self).wf(),
        ensures
            final(self).timestep_ms == old(self).timestep_ms,
            fired == old(self).overstep_ms as int / old(self).timestep_ms as int,
            final(self).overstep_ms == old(self).overstep_ms as int % old(self).timestep_ms as int,
            final(self).overstep_ms < final(self).timestep_ms,
    {
        let ghost orig = *self;
        let mut fired: u64 = 0;
        while self.overstep_ms >= self.timestep_ms
            invariant
                self.timestep_ms == orig.timestep_ms,
                self.timestep_ms >= 1,
                fired * self.timestep_ms + self.overstep_ms == orig.overstep_ms,
            decreases self.overstep_ms,
        {
            proof {
                assert(fired <= fired * self.timestep_ms) by (nonlinear_arith)
                    requires
                        fired >= 0,
                        self.timestep_ms >= 1,
                ;
                assert((fired + 1) * self.timestep_ms == fired * self.timestep_ms
                    + self.timestep_ms) by (nonlinear_arith);
            }
            self.overstep_ms = self.overstep_ms - self.timestep_ms;
            fired = fired + 1;
        }
        proof {
            let t = orig.timestep_ms as int;
            lemma_fundamental_div_mod_converse_div(
                orig.overstep_ms as int,
                t,
                fired as int,
                self.overstep_ms as int,
            );
            lemma_fundamental_div_mod_converse_mod(
                orig.overstep_ms as int,
                t,
                fired as int,
                self.overstep_ms as int,
            );
        }
        fired
    }
}

/// Total time carried by a sequence of frame deltas.
pub open spec fn total_delta(deltas: Seq<int>) -> int
    decreases deltas.len(),
{
    if deltas.len() == 0 {
        0
    } else {
        total_delta(deltas.drop_last()) + deltas.last()
    }
}

/// The accumulator's state after feeding and draining each delta in turn,
/// starting from an empty accumulator: total ticks fired, then leftover.
pub open spec fn run_accumulator(deltas: Seq<int>, t: int) -> (int, int)
    decreases deltas.len(),
{
    if deltas.len() == 0 {
        (0, 0)
    } else {
        let prior = run_accumulator(deltas.drop_last(), t);
        let fed = prior.1 + deltas.last();
        (prior.0 + fed / t, fed % t)
    }
}

/// Accumulator conservation: for a fixed tick duration `t` and any sequence
/// of nonnegative frame deltas, the number of ticks fired over the whole run
/// equals the total time divided by `t`, and the final leftover equals the
/// total time modulo `t`. Each `(feed, drain)` frame of [`Simulation`] is
/// one step of [`run_accumulator`], as `accumulate` and `drain` ensure.
pub proof fn lemma_accumulator_conservation(deltas: Seq<int>, t: int)
    requires
        t >= 1,
        forall|i: int| 0 <= i < deltas.len() ==> deltas[i] >= 0,
    ensures
        run_accumulator(deltas, t).0 == total_delta(deltas) / t,
        run_accumulator(deltas, t).1 == total_delta(deltas) % t,
    decreases deltas.len(),
{
    if deltas.len() == 0 {
        lemma_fundamental_div_mod(0, t);
        lemma_mod_bound(0, t);
        lemma_fundamental_div_mod_converse_div(0, t, 0, 0);
        lemma_fundamental_div_mod_converse_mod(0, t, 0, 0);
    } else {
        let prefix = deltas.drop_last();
        let d = deltas.last();
        lemma_accumulator_conservation(prefix, t);
        let s = total_delta(prefix);
        let n = run_accumulator(prefix, t).0;
        let o = run_accumulator(prefix, t).1;
        lemma_fundamental_div_mod(s, t);
        lemma_mod_bound(s, t);
        let fed = o + d;
        lemma_fundamental_div_mod(fed, t);
        lemma_mod_bound(fed, t);
        let q = fed / t;
        let r = fed % t;
        assert(s + d == (n + q) * t + r) by (nonlinear_arith)
            requires
                s == t * n + o,
                fed == o + d,
                fed == t * q + r,
        ;
        lemma_fundamental_div_mod_converse_div(s + d, t, n + q, r);
        lemma_fundamental_div_mod_converse_mod(s + d, t, n + q, r);
    }
}

} // verus!
