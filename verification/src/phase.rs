//! The four-phase round-robin sequencer that gates which pipeline stages
//! run on a given tick. Exactly one phase advance occurs per tick, so a
//! full round of all computations spans four ticks.

use vstd::prelude::*;

verus! {

/// One stage of the four-stage tick cycle.
#[derive(Clone, Copy, Debug, PartialEq, Eq, Structural)]
pub enum Phase {
    PowerGeneration,
    WaterFlow,
    NeutronRelease,
    SteamVenting,
}

impl Phase {
    /// The phase that follows `self` in the fixed cyclic order
    /// PowerGeneration -> WaterFlow -> NeutronRelease -> SteamVenting -> ...
    pub fn next(&self) -> (n: Phase)
        ensures
            n == self.next_spec(),
    {
        match *self {
            Phase::PowerGeneration => Phase::WaterFlow,
            Phase::WaterFlow => Phase::NeutronRelease,
            Phase::NeutronRelease => Phase::SteamVenting,
            Phase::SteamVenting => Phase::PowerGeneration,
        }
    }

    /// Successor in the cyclic phase order.
    pub open spec fn next_spec(self) -> Phase {
        match self {
            Phase::PowerGeneration => Phase::WaterFlow,
            Phase::WaterFlow => Phase::NeutronRelease,
            Phase::NeutronRelease => Phase::SteamVenting,
            Phase::SteamVenting => Phase::PowerGeneration,
        }
    }
}

impl Default for Phase {
    /// A session's first tick runs PowerGeneration.
    fn default() -> (p: Phase)
        ensures
            p == Phase::PowerGeneration,
    {
        Phase::PowerGeneration
    }
}

/// The phase reached after `n` advances from `p`.
pub open spec fn phase_after(p: Phase, n: nat) -> Phase
    decreases n,
{
    if n == 0 {
        p
    } else {
        phase_after(p, (n - 1) as nat).next_spec()
    }
}

/// The cycle closes: from any phase, four advances return to it, and no
/// earlier advance does, so the sequence observed over any run is a
/// rotation of [PowerGeneration, WaterFlow, NeutronRelease, SteamVenting].
pub proof fn lemma_phase_cycle(p: Phase)
    ensures
        p.next_spec().next_spec().next_spec().next_spec() == p,
        p.next_spec() != p,
        p.next_spec().next_spec() != p,
        p.next_spec().next_spec().next_spec() != p,
{
}

} // verus!
