//! Small shared value types of the reactor session: fuel composition,
//! control-rod movement, the water-pour rate, per-cell particle tallies,
//! and the terminal session outcome.

use vstd::prelude::*;
use crate::fixed::SCALE;
use crate::rng::random_below;

verus! {

/// Composition of one fuel rod: productive Uranium, or inert Xenon poison.
#[derive(Clone, Copy, Debug, PartialEq, Eq, Structural)]
pub enum FuelRod {
    Uranium,
    Xenon,
}

impl FuelRod {
    /// Draw an initial composition: Uranium with the given fixed-point
    /// chance (`SCALE` meaning certainty), Xenon otherwise.
    pub fn random(uranium_chance: u64) -> (f: FuelRod)
        ensures
            uranium_chance == 0 ==> f == FuelRod::Xenon,
            uranium_chance >= SCALE ==> f == FuelRod::Uranium,
    {
        let draw = random_below(SCALE);
        if draw < uranium_chance {
            FuelRod::Uranium
        } else {
            FuelRod::Xenon
        }
    }
}

/// Direction a control rod is currently travelling.
#[derive(Clone, Copy, Debug, PartialEq, Eq, Structural)]
pub enum ControlRodMovement {
    Up,
    Down,
}

impl ControlRodMovement {
    /// Turn an upward movement downward and vice versa.
    pub fn reverse(&mut self)
        ensures
            *old(self) == ControlRodMovement::Up ==> *final(self) == ControlRodMovement::Down,
            *old(self) == ControlRodMovement::Down ==> *final(self) == ControlRodMovement::Up,
    {
        *self = match *self {
            ControlRodMovement::Up => ControlRodMovement::Down,
            ControlRodMovement::Down => ControlRodMovement::Up,
        };
    }
}

/// How many stored water units one pour moves into a cell. Adjustable
/// between 1 and 50.
#[derive(Clone, Copy, Debug, PartialEq, Eq, Structural)]
pub struct WaterFlow {
    pub rate: u64,
}

impl WaterFlow {
    /// The rate a fresh session starts with.
    pub fn new() -> (w: WaterFlow)
        ensures
            w.rate == 3,
    {
        WaterFlow { rate: 3 }
    }

    /// Current pour rate.
    pub fn get(&self) -> (r: u64)
        ensures
            r == self.rate,
    {
        self.rate
    }

    /// Lower the rate by one, never below 1.
    pub fn decrease(&mut self)
        ensures
            old(self).rate > 1 ==> final(self).rate == old(self).rate - 1,
            old(self).rate <= 1 ==> final(self).rate == old(self).rate,
    {
        if self.rate > 1 {
            self.rate = self.rate - 1;
        }
    }

    /// Raise the rate by one, never above 50.
    pub fn increase(&mut self)
        ensures
            old(self).rate < 50 ==> final(self).rate == old(self).rate + 1,
            old(self).rate >= 50 ==> final(self).rate == old(self).rate,
    {
        if self.rate < 50 {
            self.rate = self.rate + 1;
        }
    }
}

impl Default for WaterFlow {
    /// The rate a fresh session starts with.
    fn default() -> (w: WaterFlow)
        ensures
            w.rate == 3,
    {
        WaterFlow { rate: 3 }
    }
}

/// A per-cell tally of discrete particles; decrements saturate at zero.
#[derive(Clone, Copy, Debug, PartialEq, Eq, Structural)]
pub struct ParticleCount {
    pub count: u64,
}

impl ParticleCount {
    /// An empty tally.
    pub fn new() -> (p: ParticleCount)
        ensures
            p.count == 0,
    {
        ParticleCount { count: 0 }
    }

    /// Current tally.
    pub fn get(&self) -> (r: u64)
        ensures
            r == self.count,
    {
        self.count
    }

    /// Add `amount` to the tally.
    pub fn increment(&mut self, amount: u64)
        requires
            old(self).count + amount <= u64::MAX,
        ensures
            final(self).count == old(self).count + amount,
    {
        self.count = self.count + amount;
    }

    /// Remove up to `amount` from the tally, stopping at zero.
    pub fn decrement(&mut self, amount: u64)
        ensures
            amount > old(self).count ==> final(self).count == 0,
            amount <= old(self).count ==> final(self).count == old(self).count - amount,
    {
        if amount > self.count {
            self.count = 0;
        } else {
            self.count = self.count - amount;
        }
    }
}

impl Default for ParticleCount {
    /// An empty tally.
    fn default() -> (p: ParticleCount)
        ensures
            p.count == 0,
    {
        ParticleCount { count: 0 }
    }
}

/// Why a session ended.
#[derive(Clone, Copy, Debug, PartialEq, Eq, Structural)]
pub enum GameOverCause {
    PlayerAbandoned,
    NotEnoughPower,
    Explosion,
}

/// The single terminal notification of a session: its cause and the total
/// power generated up to that moment. Raised at most once per session.
#[derive(Clone, Copy, Debug, PartialEq, Eq, Structural)]
pub struct GameOver {
    pub cause: GameOverCause,
    pub power_generated: u64,
}

} // verus!
