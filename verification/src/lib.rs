//! A verified reactor-core simulation: a fixed-tick model of a nuclear
//! reactor represented as a lattice of fuel cells and coupling edges, with
//! a four-phase scheduler, reactivity/thermal diffusion, coolant/steam/
//! pressure dynamics, stochastic neutron transport with fuel transmutation,
//! and power-demand tracking with terminal failure conditions.
//!
//! All physical quantities are fixed-point integers: a value of
//! [`fixed::SCALE`] stands for 1.0. Temperatures are in milli-degrees
//! Celsius, durations in milliseconds, angles in millionths of a full turn.

pub mod builder;
pub mod config;
pub mod coolant;
pub mod fixed;
pub mod lattice;
pub mod neutron;
pub mod phase;
pub mod power;
pub mod reactivity;
pub mod reactor;
pub mod rng;
pub mod sched;
pub mod types;
