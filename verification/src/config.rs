//! The shared configuration record: every tunable constant of the physics
//! and of the session, in fixed-point units ([`crate::fixed::SCALE`] stands
//! for 1.0; temperatures are milli-degrees Celsius, durations milliseconds).

use vstd::prelude::*;
use crate::fixed::SCALE;

verus! {

/// Tunable physics and session constants. A single record is shared by
/// every tick stage; no stage hard-codes a constant of its own.
#[derive(Clone, Copy, Debug, PartialEq, Eq, Structural)]
pub struct SimulationConfig {
    /// Base reactivity of a cell with no control rod inserted.
    pub base_reactivity: u64,
    /// Extra reactivity factor when coolant is low (positive void coefficient).
    pub void_reactivity_boost: u64,
    /// Weight of the incident edges' reactivity in a cell's total.
    pub reactivity_neighbor_coupling_factor: u64,
    /// Heat generated per unit of total reactivity, milli-degrees per tick.
    pub heat_generation_factor: u64,
    /// Temperature of incoming coolant, milli-degrees Celsius.
    pub coolant_temperature: u64,
    /// Heat removed per tick per unit of coolant.
    pub coolant_efficiency: u64,
    /// Passive decay rate per tick toward the ambient temperature.
    pub temperature_passive_decay_rate: u64,
    /// Thermal energy available per degree above the boiling point.
    pub energy_per_heat_unit: u64,
    /// Energy required to boil 1.0 of coolant into steam.
    pub energy_required_per_unit: u64,
    /// Volume one unit of boiled coolant takes as steam.
    pub steam_expansion_ratio: u64,
    /// Numerator of the pressure curve exponent.
    pub pressure_exponent_num: u64,
    /// Denominator of the pressure curve exponent.
    pub pressure_exponent_den: u64,
    /// Baseline pressure in fixed-point atmospheres.
    pub nominal_pressure: u64,
    /// Scales the raw pressure term into simulation units.
    pub pressure_scale: u64,
    /// Steam pulled per tick per unit of relative pressure.
    pub steam_pull_factor: u64,
    /// Upper bound on steam pulled from one cell per tick.
    pub steam_pull_capacity: u64,
    /// Coolant a circuit at full power distributes per tick.
    pub max_pump_coolant_flow: u64,
    /// Pressure above which a cell shows the overpressure warning.
    pub pressure_warn_level: u64,
    /// Pressure above which the session ends in an explosion.
    pub pressure_explosion_level: u64,
    /// Consecutive shortfall ticks above which the low-power warning shows.
    pub low_power_warn_ticks: u64,
    /// Consecutive shortfall ticks above which the session ends.
    pub low_power_fail_ticks: u64,
    /// Chance per trial that a Uranium cell emits a neutron.
    pub neutron_spawn_chance: u64,
    /// Independent emission trials per Uranium cell per release tick.
    pub max_neutrons_released_per_tick: u64,
    /// Chance per tick that a non-Xenon cell spontaneously poisons.
    pub xenon_spawn_chance_per_tick: u64,
    /// Share of cells that start as Uranium rather than Xenon.
    pub initial_uranium_ratio: u64,
    /// Lifetime of a neutron before it starts dying, milliseconds.
    pub neutron_lifetime_ms: u64,
    /// Fade-out grace period of a dying neutron, milliseconds.
    pub neutron_fade_ms: u64,
    /// Radial speed of a neutron per second, in fixed-point cell widths.
    pub neutron_speed: u64,
    /// Control rod travel per second while a movement is engaged.
    pub control_rod_insertion_speed: u64,
    /// Water units added to the store per water-flow tick.
    pub water_created_per_tick: u64,
    /// Capacity of the water store, in units.
    pub max_water_stored: u64,
    /// Coolant level added to a cell per stored water unit poured in.
    pub water_unit: u64,
    /// Delay before the demand ramp starts, milliseconds.
    pub tutorial_ms: u64,
    /// Period of the repeating demand increase, milliseconds.
    pub demand_period_ms: u64,
    /// Period of the repeating ramp-delta increase, milliseconds.
    pub demand_rate_period_ms: u64,
    /// Initial demand ramp delta.
    pub initial_demand_delta: u64,
    /// Amount the ramp delta itself grows by at each rate period.
    pub demand_delta_step: u64,
}

impl SimulationConfig {
    /// Constraints every usable configuration satisfies: divisors are
    /// positive, the pressure exponent is a small rational of at least 1,
    /// the baseline pressure is at least one atmosphere and modest, and
    /// the repeating timers have positive periods.
    pub open spec fn wf(self) -> bool {
        &&& self.energy_required_per_unit >= 1
        &&& SCALE <= self.nominal_pressure <= 1_000_000_000
        &&& 1 <= self.pressure_exponent_den <= self.pressure_exponent_num <= 6
        &&& 1 <= self.demand_period_ms <= 1_000_000_000
        &&& 1 <= self.demand_rate_period_ms <= 1_000_000_000
        &&& self.low_power_fail_ticks <= 1_000_000_000
    }
}

impl Default for SimulationConfig {
    /// The reference tuning.
    fn default() -> (c: SimulationConfig)
        ensures
            c.wf(),
            c == reference_config(),
    {
        SimulationConfig {
            base_reactivity: 1000,
            void_reactivity_boost: 1500,
            reactivity_neighbor_coupling_factor: 200,
            heat_generation_factor: 5000,
            coolant_temperature: 40_000,
            coolant_efficiency: 100,
            temperature_passive_decay_rate: 10,
            energy_per_heat_unit: 10_000,
            energy_required_per_unit: 2_000_000,
            steam_expansion_ratio: 100_000,
            pressure_exponent_num: 6,
            pressure_exponent_den: 5,
            nominal_pressure: 1000,
            pressure_scale: 10,
            steam_pull_factor: 200,
            steam_pull_capacity: 500,
            max_pump_coolant_flow: 1000,
            pressure_warn_level: 30_000,
            pressure_explosion_level: 50_000,
            low_power_warn_ticks: 5,
            low_power_fail_ticks: 20,
            neutron_spawn_chance: 600,
            max_neutrons_released_per_tick: 3,
            xenon_spawn_chance_per_tick: 100,
            initial_uranium_ratio: 650,
            neutron_lifetime_ms: 45_000,
            neutron_fade_ms: 500,
            neutron_speed: 65_000,
            control_rod_insertion_speed: 100,
            water_created_per_tick: 200,
            max_water_stored: 2000,
            water_unit: 50,
            tutorial_ms: 10_000,
            demand_period_ms: 1000,
            demand_rate_period_ms: 10_000,
            initial_demand_delta: 1000,
            demand_delta_step: 1000,
        }
    }
}

/// The reference configuration's exact field values.
pub open spec fn reference_config() -> SimulationConfig {
    SimulationConfig {
        base_reactivity: 1000,
        void_reactivity_boost: 1500,
        reactivity_neighbor_coupling_factor: 200,
        heat_generation_factor: 5000,
        coolant_temperature: 40_000,
        coolant_efficiency: 100,
        temperature_passive_decay_rate: 10,
        energy_per_heat_unit: 10_000,
        energy_required_per_unit: 2_000_000,
        steam_expansion_ratio: 100_000,
        pressure_exponent_num: 6,
        pressure_exponent_den: 5,
        nominal_pressure: 1000,
        pressure_scale: 10,
        steam_pull_factor: 200,
        steam_pull_capacity: 500,
        max_pump_coolant_flow: 1000,
        pressure_warn_level: 30_000,
        pressure_explosion_level: 50_000,
        low_power_warn_ticks: 5,
        low_power_fail_ticks: 20,
        neutron_spawn_chance: 600,
        max_neutrons_released_per_tick: 3,
        xenon_spawn_chance_per_tick: 100,
        initial_uranium_ratio: 650,
        neutron_lifetime_ms: 45_000,
        neutron_fade_ms: 500,
        neutron_speed: 65_000,
        control_rod_insertion_speed: 100,
        water_created_per_tick: 200,
        max_water_stored: 2000,
        water_unit: 50,
        tutorial_ms: 10_000,
        demand_period_ms: 1000,
        demand_rate_period_ms: 10_000,
        initial_demand_delta: 1000,
        demand_delta_step: 1000,
    }
}

} // verus!
