//! The reactor session: the lattice with its physical state, the phase
//! sequencer, the neutron population, the aggregate water/steam/power
//! stores, the demand tracker, and the terminal outcome. Player commands
//! arrive as method calls addressed by stable cell, valve and circuit
//! indices; the tick pipeline runs the gated stages in a fixed order.

use vstd::prelude::*;
use crate::builder::{grid_seq, valid_of};
use crate::config::SimulationConfig;
use crate::coolant::{generate_steam, update_coolant_flow, update_steam_pull_capacity};
use crate::fixed::{fp_mul, fp_mul_spec, min64, min_spec, sat_add, sat_add_spec, sat_sub, SCALE, TURN};
use crate::lattice::{
    lemma_same_shape_graph_wf, same_shape, BuildError, ReactorCell, ReactorCore,
};
use crate::neutron::{
    absorb_at_rod, advance_neutrons, advanced_neutron, count_with_origin, resolve_fuel_hit,
    spawn_neutron, surviving, CollisionOutcome, NeutronParticle, FISSION_FAN_OFFSET,
};
use crate::phase::Phase;
use crate::power::{
    advance_demand_timers, assess_power, convert_steam_to_power, converted_spec, deficit_spec,
    shortfall_update, update_shortfall, NextPowerDemand, PowerDemand, PowerStatus,
    TicksWithoutPower,
};
use crate::reactivity::{
    update_edge_reactivity, update_edge_temperatures, update_local_reactivity, update_temperature,
    update_total_reactivity,
};
use crate::rng::random_below;
use crate::sched::Simulation;
use crate::types::{ControlRodMovement, FuelRod, GameOver, GameOverCause, WaterFlow};

verus! {

/// Emission stops while the neutron population is at least this large,
/// bounding the session's memory use.
pub const NEUTRON_SPAWN_CAP: usize = 1_000_000;

/// One play session's complete simulation state.
pub struct Reactor {
    /// The shared tunable constants.
    pub config: SimulationConfig,
    /// The lattice with its per-cell and per-edge state.
    pub core: ReactorCore,
    /// The fixed-step accumulator driving the tick pipeline.
    pub sim: Simulation,
    /// The phase the next tick will run.
    pub phase: Phase,
    /// Neutrons currently in flight.
    pub neutrons: Vec<NeutronParticle>,
    /// Stored water units awaiting distribution.
    pub water_stored: u64,
    /// How many stored units one pour moves into a cell.
    pub water_flow: WaterFlow,
    /// Stored steam awaiting conversion into power.
    pub steam_stored: u64,
    /// Total power generated so far.
    pub power_generated: u64,
    /// Current power demand.
    pub demand: PowerDemand,
    /// The demand ramp state.
    pub next_demand: NextPowerDemand,
    /// Consecutive ticks of unmet demand.
    pub ticks_without_power: TicksWithoutPower,
    /// Whole simulation ticks run so far: the simulated clock advances by
    /// exactly one tick duration per tick.
    pub ticks_elapsed: u64,
    /// Whether the low-power warning is showing.
    pub low_power_warning: bool,
    /// Whether the overpressure warning is showing.
    pub overpressure_warning: bool,
    /// The terminal outcome, once the session has ended.
    pub over: Option<GameOver>,
}

impl Reactor {
    /// The session invariant: configuration, lattice, accumulator and
    /// demand ramp are well-formed, the shortfall counter never runs past
    /// the failure threshold, the water store respects its capacity, and
    /// every neutron's angle is a valid turn fraction.
    pub open spec fn wf(self) -> bool {
        &&& self.config.wf()
        &&& self.core.wf(self.config)
        &&& self.sim.wf()
        &&& self.next_demand.wf(self.config)
        &&& self.ticks_without_power.0 <= self.config.low_power_fail_ticks + 1
        &&& (self.ticks_without_power.0 > self.config.low_power_fail_ticks ==> self.over is Some)
        &&& self.water_stored <= self.config.max_water_stored
        &&& forall|k: int| 0 <= k < self.neutrons@.len() ==> (#[trigger] self.neutrons@[k]).wf()
    }

    /// Build a fresh session over a newly constructed lattice: phase at
    /// PowerGeneration, no neutrons, empty stores, zero demand, and the
    /// tick accumulator at the configured timestep. Construction fails
    /// exactly when the lattice builder does.
    pub fn new(
        cfg: SimulationConfig,
        rows: usize,
        columns: usize,
        valve_size: usize,
        valves_per_circuit: usize,
        circuit_count: usize,
        timestep_ms: u64,
    ) -> (r: Result<Reactor, BuildError>)
        requires
            cfg.wf(),
            rows <= 100,
            columns <= 100,
            timestep_ms >= 1,
        ensures
            match r {
                Ok(reactor) => {
                    &&& reactor.wf()
                    &&& reactor.config == cfg
                    &&& reactor.phase == Phase::PowerGeneration
                    &&& reactor.over is None
                    &&& reactor.neutrons@.len() == 0
                    &&& reactor.water_stored == 0
                    &&& reactor.steam_stored == 0
                    &&& reactor.power_generated == 0
                    &&& reactor.demand.0 == 0
                    &&& reactor.ticks_without_power.0 == 0
                    &&& reactor.ticks_elapsed == 0
                    &&& reactor.sim.timestep_ms == timestep_ms
                    &&& reactor.sim.overstep_ms == 0
                    &&& reactor.core.n() == valve_size * valves_per_circuit * circuit_count
                    &&& reactor.core.positions@ == valid_of(grid_seq(rows as int, columns as int))
                },
                Err(BuildError::NoValidCells) => valid_of(
                    grid_seq(rows as int, columns as int),
                ).len() == 0,
                Err(BuildError::UnevenPartition) => {
                    &&& valid_of(grid_seq(rows as int, columns as int)).len() >= 1
                    &&& valid_of(grid_seq(rows as int, columns as int)).len() != valve_size
                        * valves_per_circuit * circuit_count
                },
            },
    {
        let core = match ReactorCore::new(
            &cfg,
            rows,
            columns,
            valve_size,
            valves_per_circuit,
            circuit_count,
        ) {
            Ok(core) => core,
            Err(e) => {
                return Err(e);
            },
        };
        let next_demand = NextPowerDemand::new(&cfg);
        Ok(
            Reactor {
                config: cfg,
                core,
                sim: Simulation::new(timestep_ms),
                phase: Phase::PowerGeneration,
                neutrons: Vec::new(),
                water_stored: 0,
                water_flow: WaterFlow::new(),
                steam_stored: 0,
                power_generated: 0,
                demand: PowerDemand(0),
                next_demand,
                ticks_without_power: TicksWithoutPower(0),
                ticks_elapsed: 0,
                low_power_warning: false,
                overpressure_warning: false,
                over: None,
            },
        )
    }

    /// Draw an initial fuel composition for every cell: Uranium with the
    /// configured ratio, Xenon otherwise. Whatever the draws, only the
    /// fuel fields change.
    pub fn randomize_fuel(&mut self)
        requires
            old(self).wf(),
        ensures
            final(self).wf(),
            *final(self) == (Reactor { core: final(self).core, ..*old(self) }),
            same_shape(old(self).core, final(self).core),
            final(self).core.edges == old(self).core.edges,
            final(self).core.valves == old(self).core.valves,
            final(self).core.circuits == old(self).core.circuits,
            forall|i: int|
                0 <= i < old(self).core.n() ==> final(self).core.cells@[i] == (ReactorCell {
                    fuel: final(self).core.cells@[i].fuel,
                    ..old(self).core.cells@[i]
                }),
    {
        let ghost orig = *self;
        let n = self.core.cells.len();
        let mut i: usize = 0;
        while i < n
            invariant
                orig.wf(),
                n == orig.core.cells@.len(),
                i <= n,
                *self == (Reactor { core: self.core, ..orig }),
                self.core == (ReactorCore { cells: self.core.cells, ..orig.core }),
                self.core.cells@.len() == n,
                forall|k: int|
                    0 <= k < i ==> self.core.cells@[k] == (ReactorCell {
                        fuel: self.core.cells@[k].fuel,
                        ..orig.core.cells@[k]
                    }),
                forall|k: int| i <= k < n ==> self.core.cells@[k] == orig.core.cells@[k],
            decreases n - i,
        {
            let fuel = FuelRod::random(self.config.initial_uranium_ratio);
            let mut c = self.core.cells[i];
            c.fuel = fuel;
            self.core.cells.set(i, c);
            i = i + 1;
        }
        proof {
            lemma_same_shape_graph_wf(orig.core, self.core);
        }
    }

    /// The clamped insertion a signed rod adjustment produces.
    pub open spec fn adjusted_insertion(insertion: int, delta: int) -> int {
        let raw = insertion + delta;
        if raw < 0 {
            0
        } else if raw > SCALE {
            SCALE as int
        } else {
            raw
        }
    }

    /// Adjust cell `cell`'s control-rod insertion by a signed delta,
    /// clamped to the unit range.
    pub fn move_control_rod(&mut self, cell: usize, delta: i64)
        requires
            old(self).wf(),
            cell < old(self).core.cells@.len(),
        ensures
            final(self).wf(),
            *final(self) == (Reactor { core: final(self).core, ..*old(self) }),
            same_shape(old(self).core, final(self).core),
            final(self).core.cells@ == old(self).core.cells@.update(
                cell as int,
                (ReactorCell {
                    control_rod: Self::adjusted_insertion(
                        old(self).core.cells@[cell as int].control_rod as int,
                        delta as int,
                    ) as u64,
                    ..old(self).core.cells@[cell as int]
                }),
            ),
    {
        let ghost orig = *self;
        let mut c = self.core.cells[cell];
        let adjusted: u64 = if delta >= 0 {
            min64(sat_add(c.control_rod, delta as u64), SCALE)
        } else {
            let magnitude: u64 = ((-(delta + 1)) as u64) + 1;
            sat_sub(c.control_rod, magnitude)
        };
        c.control_rod = adjusted;
        self.core.cells.set(cell, c);
        proof {
            lemma_same_shape_graph_wf(orig.core, self.core);
        }
    }

    /// The movement a click starts or reverses: a rod already moving
    /// reverses; a still rod starts moving down when it is more than half
    /// inserted, and up otherwise.
    pub fn click_control_rod(&mut self, cell: usize)
        requires
            old(self).wf(),
            cell < old(self).core.cells@.len(),
        ensures
            final(self).wf(),
            *final(self) == (Reactor { core: final(self).core, ..*old(self) }),
            same_shape(old(self).core, final(self).core),
            final(self).core.cells@ == old(self).core.cells@.update(
                cell as int,
                (ReactorCell {
                    rod_movement: match old(self).core.cells@[cell as int].rod_movement {
                        Some(ControlRodMovement::Up) => Some(ControlRodMovement::Down),
                        Some(ControlRodMovement::Down) => Some(ControlRodMovement::Up),
                        None => {
                            if old(self).core.cells@[cell as int].control_rod > SCALE / 2 {
                                Some(ControlRodMovement::Down)
                            } else {
                                Some(ControlRodMovement::Up)
                            }
                        },
                    },
                    ..old(self).core.cells@[cell as int]
                }),
            ),
    {
        let ghost orig = *self;
        let mut c = self.core.cells[cell];
        c.rod_movement = match c.rod_movement {
            Some(ControlRodMovement::Up) => Some(ControlRodMovement::Down),
            Some(ControlRodMovement::Down) => Some(ControlRodMovement::Up),
            None => {
                if c.control_rod > SCALE / 2 {
                    Some(ControlRodMovement::Down)
                } else {
                    Some(ControlRodMovement::Up)
                }
            },
        };
        self.core.cells.set(cell, c);
        proof {
            lemma_same_shape_graph_wf(orig.core, self.core);
        }
    }

    /// How one frame's travel moves a cell's control rod: an engaged
    /// movement shifts the insertion at the configured speed; reaching
    /// either end clamps the insertion there and disengages the movement.
    pub open spec fn rod_advanced(cfg: SimulationConfig, c: ReactorCell, delta_ms: int) -> ReactorCell {
        match c.rod_movement {
            None => c,
            Some(m) => {
                let step = fp_mul_spec(cfg.control_rod_insertion_speed as int, delta_ms);
                match m {
                    ControlRodMovement::Up => {
                        let raw = sat_add_spec(c.control_rod as int, step);
                        if raw >= SCALE {
                            ReactorCell { control_rod: SCALE, rod_movement: None, ..c }
                        } else {
                            ReactorCell { control_rod: raw as u64, ..c }
                        }
                    },
                    ControlRodMovement::Down => {
                        if c.control_rod <= step {
                            ReactorCell { control_rod: 0, rod_movement: None, ..c }
                        } else {
                            ReactorCell { control_rod: (c.control_rod - step) as u64, ..c }
                        }
                    },
                }
            },
        }
    }

    /// Advance every engaged control-rod movement by one frame's travel.
    pub fn advance_rods(&mut self, delta_ms: u64)
        requires
            old(self).wf(),
        ensures
            final(self).wf(),
            *final(self) == (Reactor { core: final(self).core, ..*old(self) }),
            same_shape(old(self).core, final(self).core),
            final(self).core.cells@.len() == old(self).core.cells@.len(),
            forall|i: int|
                0 <= i < old(self).core.n() ==> final(self).core.cells@[i] == Self::rod_advanced(
                    old(self).config,
                    old(self).core.cells@[i],
                    delta_ms as int,
                ),
    {
        let ghost orig = *self;
        let n = self.core.cells.len();
        let mut i: usize = 0;
        while i < n
            invariant
                orig.wf(),
                n == orig.core.cells@.len(),
                i <= n,
                *self == (Reactor { core: self.core, ..orig }),
                self.core == (ReactorCore { cells: self.core.cells, ..orig.core }),
                self.core.cells@.len() == n,
                forall|k: int|
                    0 <= k < i ==> self.core.cells@[k] == Self::rod_advanced(
                        orig.config,
                        orig.core.cells@[k],
                        delta_ms as int,
                    ),
                forall|k: int| i <= k < n ==> self.core.cells@[k] == orig.core.cells@[k],
            decreases n - i,
        {
            let c = self.core.cells[i];
            match c.rod_movement {
                None => {},
                Some(m) => {
                    let step = fp_mul(self.config.control_rod_insertion_speed, delta_ms);
                    let mut updated = c;
                    match m {
                        ControlRodMovement::Up => {
                            let raw = sat_add(c.control_rod, step);
                            if raw >= SCALE {
                                updated.control_rod = SCALE;
                                updated.rod_movement = None;
                            } else {
                                updated.control_rod = raw;
                            }
                        },
                        ControlRodMovement::Down => {
                            if c.control_rod <= step {
                                updated.control_rod = 0;
                                updated.rod_movement = None;
                            } else {
                                updated.control_rod = c.control_rod - step;
                            }
                        },
                    }
                    self.core.cells.set(i, updated);
                },
            }
            i = i + 1;
        }
        proof {
            lemma_same_shape_graph_wf(orig.core, self.core);
        }
    }

    /// Toggle valve `valve` between open and closed.
    pub fn toggle_valve(&mut self, valve: usize)
        requires
            old(self).wf(),
            valve < old(self).core.valves@.len(),
        ensures
            final(self).wf(),
            *final(self) == (Reactor { core: final(self).core, ..*old(self) }),
            same_shape(old(self).core, final(self).core),
            final(self).core.cells == old(self).core.cells,
            final(self).core.valves@.len() == old(self).core.valves@.len(),
            forall|v: int|
                0 <= v < old(self).core.valves@.len() && v != valve ==> final(self).core.valves@[v]
                    == old(self).core.valves@[v],
            final(self).core.valves@[valve as int].is_open
                == !old(self).core.valves@[valve as int].is_open,
            final(self).core.valves@[valve as int].cells@ == old(self).core.valves@[valve as int].cells@,
    {
        let ghost orig = *self;
        let was_open = self.core.valves[valve].is_open;
        let members = self.core.valves[valve].cells.clone();
        proof {
            assert(members@ =~= orig.core.valves@[valve as int].cells@);
        }
        self.core.valves.set(
            valve,
            crate::lattice::CoolantValve { is_open: !was_open, cells: members },
        );
        proof {
            assert(self.core.valves@[valve as int].cells@
                == orig.core.valves@[valve as int].cells@);
            assert(same_shape(orig.core, self.core));
            lemma_same_shape_graph_wf(orig.core, self.core);
        }
    }

    /// Set circuit `circuit`'s pump power, clamped to the unit range.
    pub fn set_circuit_power(&mut self, circuit: usize, power: u64)
        requires
            old(self).wf(),
            circuit < old(self).core.circuits@.len(),
        ensures
            final(self).wf(),
            *final(self) == (Reactor { core: final(self).core, ..*old(self) }),
            same_shape(old(self).core, final(self).core),
            final(self).core.cells == old(self).core.cells,
            final(self).core.valves == old(self).core.valves,
            final(self).core.circuits@.len() == old(self).core.circuits@.len(),
            forall|c: int|
                0 <= c < old(self).core.circuits@.len() && c != circuit
                    ==> final(self).core.circuits@[c] == old(self).core.circuits@[c],
            final(self).core.circuits@[circuit as int].power == min_spec(
                power as int,
                SCALE as int,
            ),
            final(self).core.circuits@[circuit as int].valves@
                == old(self).core.circuits@[circuit as int].valves@,
    {
        let ghost orig = *self;
        let clamped = min64(power, SCALE);
        let members = self.core.circuits[circuit].valves.clone();
        proof {
            assert(members@ =~= orig.core.circuits@[circuit as int].valves@);
        }
        self.core.circuits.set(
            circuit,
            crate::lattice::CoolantCircuit { power: clamped, valves: members },
        );
        proof {
            assert(self.core.circuits@[circuit as int].valves@
                == orig.core.circuits@[circuit as int].valves@);
            assert(same_shape(orig.core, self.core));
            lemma_same_shape_graph_wf(orig.core, self.core);
        }
    }

    /// Pour stored water into cell `cell`: up to the pour rate leaves the
    /// store, and the poured units enter the cell as coolant, clamped to
    /// the space the cell has left.
    pub fn add_water_to_cell(&mut self, cell: usize)
        requires
            old(self).wf(),
            cell < old(self).core.cells@.len(),
        ensures
            final(self).wf(),
            *final(self) == (Reactor {
                core: final(self).core,
                water_stored: final(self).water_stored,
                ..*old(self)
            }),
            same_shape(old(self).core, final(self).core),
            final(self).water_stored == old(self).water_stored - min_spec(
                old(self).water_stored as int,
                old(self).water_flow.rate as int,
            ),
            final(self).core.cells@ == old(self).core.cells@.update(
                cell as int,
                (ReactorCell {
                    coolant_level: (old(self).core.cells@[cell as int].coolant_level + min_spec(
                        min_spec(old(self).water_stored as int, old(self).water_flow.rate as int)
                            * old(self).config.water_unit as int,
                        SCALE - (old(self).core.cells@[cell as int].coolant_level + old(self).core.cells@[cell as int].steam_level),
                    )) as u64,
                    ..old(self).core.cells@[cell as int]
                }),
            ),
    {
        let ghost orig = *self;
        let moved = min64(self.water_stored, self.water_flow.get());
        self.water_stored = self.water_stored - moved;
        let mut c = self.core.cells[cell];
        let space = SCALE - (c.coolant_level + c.steam_level);
        proof {
            assert((moved as int) * (self.config.water_unit as int) <= (u64::MAX as int) * (
            u64::MAX as int)) by (nonlinear_arith)
                requires
                    0 <= moved <= u64::MAX,
                    0 <= self.config.water_unit <= u64::MAX,
            ;
        }
        let poured_wide: u128 = (moved as u128) * (self.config.water_unit as u128);
        let poured: u64 = if poured_wide > space as u128 {
            space
        } else {
            poured_wide as u64
        };
        proof {
            assert((moved as int) * (self.config.water_unit as int) >= 0) by (nonlinear_arith)
                requires
                    moved >= 0,
                    self.config.water_unit >= 0,
            ;
        }
        c.coolant_level = c.coolant_level + poured;
        self.core.cells.set(cell, c);
        proof {
            lemma_same_shape_graph_wf(orig.core, self.core);
        }
    }

    /// End the session at the player's request. The notification carries
    /// the power generated so far; a session already over is unchanged.
    pub fn abandon(&mut self)
        requires
            old(self).wf(),
        ensures
            final(self).wf(),
            old(self).over is Some ==> *final(self) == *old(self),
            old(self).over is None ==> *final(self) == (Reactor {
                over: Some(
                    GameOver {
                        cause: GameOverCause::PlayerAbandoned,
                        power_generated: old(self).power_generated,
                    },
                ),
                ..*old(self)
            }),
    {
        if self.over.is_none() {
            self.over = Some(
                GameOver {
                    cause: GameOverCause::PlayerAbandoned,
                    power_generated: self.power_generated,
                },
            );
        }
    }

    /// Feed wall-clock time into the demand ramp and the engaged rod
    /// movements. Once the session is over, time no longer changes it.
    pub fn advance_time(&mut self, delta_ms: u64)
        requires
            old(self).wf(),
            delta_ms <= 1_000_000_000,
        ensures
            final(self).wf(),
            old(self).over is Some ==> *final(self) == *old(self),
            old(self).over is None ==> {
                &&& *final(self) == (Reactor {
                    core: final(self).core,
                    demand: final(self).demand,
                    next_demand: final(self).next_demand,
                    ..*old(self)
                })
                &&& same_shape(old(self).core, final(self).core)
                &&& forall|i: int|
                    0 <= i < old(self).core.n() ==> final(self).core.cells@[i]
                        == Self::rod_advanced(
                        old(self).config,
                        old(self).core.cells@[i],
                        delta_ms as int,
                    )
                &&& (old(self).next_demand.tutorial_remaining_ms > delta_ms ==> {
                    &&& final(self).next_demand == (NextPowerDemand {
                        tutorial_remaining_ms: (old(self).next_demand.tutorial_remaining_ms
                            - delta_ms) as u64,
                        ..old(self).next_demand
                    })
                    &&& final(self).demand == old(self).demand
                })
                &&& (old(self).next_demand.tutorial_remaining_ms <= delta_ms ==> {
                    let fed_demand = old(self).next_demand.demand_elapsed_ms + delta_ms;
                    let fed_rate = old(self).next_demand.rate_elapsed_ms + delta_ms;
                    &&& final(self).next_demand.tutorial_remaining_ms == 0
                    &&& final(self).next_demand.demand_elapsed_ms == fed_demand % (
                    old(self).config.demand_period_ms as int)
                    &&& final(self).next_demand.rate_elapsed_ms == fed_rate % (
                    old(self).config.demand_rate_period_ms as int)
                    &&& final(self).demand.0 == (if fed_demand >= old(self).config.demand_period_ms {
                        sat_add_spec(old(self).demand.0 as int, old(self).next_demand.delta as int)
                    } else {
                        old(self).demand.0 as int
                    })
                    &&& final(self).next_demand.delta == (if fed_rate
                        >= old(self).config.demand_rate_period_ms {
                        sat_add_spec(
                            old(self).next_demand.delta as int,
                            old(self).config.demand_delta_step as int,
                        )
                    } else {
                        old(self).next_demand.delta as int
                    })
                })
            },
    {
        if self.over.is_some() {
            return ;
        }
        let mut next = self.next_demand;
        let mut demand = self.demand;
        advance_demand_timers(&mut next, &mut demand, &self.config, delta_ms);
        self.next_demand = next;
        self.demand = demand;
        self.advance_rods(delta_ms);
    }
}

/// The steam store after the venting sweep: every cell's steam output is
/// added in order, saturating.
pub open spec fn vented_total(store: int, cells: Seq<ReactorCell>) -> int
    decreases cells.len(),
{
    if cells.len() == 0 {
        store
    } else {
        sat_add_spec(vented_total(store, cells.drop_last()), cells.last().steam_output as int)
    }
}

/// The venting sweep reads only the cells' steam outputs, so any change
/// that leaves those untouched leaves the sweep's total unchanged.
proof fn lemma_vented_total_same_outputs(store: int, a: Seq<ReactorCell>, b: Seq<ReactorCell>)
    requires
        a.len() == b.len(),
        forall|i: int| 0 <= i < a.len() ==> (#[trigger] a[i]).steam_output == b[i].steam_output,
    ensures
        vented_total(store, a) == vented_total(store, b),
    decreases a.len(),
{
    if a.len() > 0 {
        assert forall|i: int|
            0 <= i < a.drop_last().len() implies (#[trigger] a.drop_last()[i]).steam_output
                == b.drop_last()[i].steam_output by {
            assert(a[i].steam_output == b[i].steam_output);
        }
        lemma_vented_total_same_outputs(store, a.drop_last(), b.drop_last());
    }
}

impl Reactor {
    /// Refill the water store by the configured amount, up to its capacity.
    fn create_water(&mut self)
        requires
            old(self).wf(),
        ensures
            final(self).wf(),
            *final(self) == (Reactor { water_stored: final(self).water_stored, ..*old(self) }),
            final(self).water_stored == min_spec(
                sat_add_spec(old(self).water_stored as int, old(self).config.water_created_per_tick as int),
                old(self).config.max_water_stored as int,
            ),
    {
        self.water_stored = min64(
            sat_add(self.water_stored, self.config.water_created_per_tick),
            self.config.max_water_stored,
        );
    }

    /// Vent every cell's steam output of this tick into the steam store.
    fn vent_steam_outputs(&mut self)
        requires
            old(self).wf(),
        ensures
            final(self).wf(),
            *final(self) == (Reactor { steam_stored: final(self).steam_stored, ..*old(self) }),
            final(self).steam_stored == vented_total(
                old(self).steam_stored as int,
                old(self).core.cells@,
            ),
    {
        let n = self.core.cells.len();
        let mut store = self.steam_stored;
        let mut i: usize = 0;
        while i < n
            invariant
                n == self.core.cells@.len(),
                i <= n,
                store as int == vented_total(self.steam_stored as int, self.core.cells@.take(i as int)),
            decreases n - i,
        {
            proof {
                assert(self.core.cells@.take(i + 1).drop_last() =~= self.core.cells@.take(i as int));
            }
            store = sat_add(store, self.core.cells[i].steam_output);
            i = i + 1;
        }
        proof {
            assert(self.core.cells@.take(n as int) =~= self.core.cells@);
        }
        self.steam_stored = store;
    }

    /// Check every cell's pressure against the two thresholds: past the
    /// explosion level the session ends immediately with cause
    /// "explosion", carrying the power generated so far; past the lower
    /// warning level only the overpressure warning shows.
    fn check_overpressure(&mut self)
        requires
            old(self).wf(),
            old(self).over is None,
        ensures
            final(self).wf(),
            *final(self) == (Reactor {
                overpressure_warning: final(self).overpressure_warning,
                over: final(self).over,
                ..*old(self)
            }),
            (exists|i: int|
                0 <= i < old(self).core.n() && (#[trigger] old(self).core.cells@[i]).pressure > old(self).config.pressure_explosion_level) ==> final(self).over == Some(
                GameOver {
                    cause: GameOverCause::Explosion,
                    power_generated: old(self).power_generated,
                },
            ),
            !(exists|i: int|
                0 <= i < old(self).core.n() && (#[trigger] old(self).core.cells@[i]).pressure > old(self).config.pressure_explosion_level) ==> {
                &&& final(self).over is None
                &&& final(self).overpressure_warning == (exists|i: int|
                    0 <= i < old(self).core.n() && (#[trigger] old(self).core.cells@[i]).pressure
                        > old(self).config.pressure_warn_level)
            },
    {
        let n = self.core.cells.len();
        let mut any_explode = false;
        let mut any_warn = false;
        let mut i: usize = 0;
        while i < n
            invariant
                n == self.core.cells@.len(),
                i <= n,
                any_explode == (exists|k: int|
                    0 <= k < i && (#[trigger] self.core.cells@[k]).pressure
                        > self.config.pressure_explosion_level),
                any_warn == (exists|k: int|
                    0 <= k < i && (#[trigger] self.core.cells@[k]).pressure
                        > self.config.pressure_warn_level),
            decreases n - i,
        {
            let c = self.core.cells[i];
            if c.pressure > self.config.pressure_explosion_level {
                any_explode = true;
            }
            if c.pressure > self.config.pressure_warn_level {
                any_warn = true;
            }
            i = i + 1;
        }
        if any_explode {
            self.over = Some(
                GameOver { cause: GameOverCause::Explosion, power_generated: self.power_generated },
            );
        } else {
            self.overpressure_warning = any_warn;
        }
    }

    /// The power-generation bookkeeping of a tick: convert stored steam
    /// toward the demand, advance the shortfall counter, and judge it
    /// against the warning and failure thresholds.
    fn power_stage(&mut self)
        requires
            old(self).wf(),
            old(self).over is None,
        ensures
            final(self).wf(),
            *final(self) == (Reactor {
                steam_stored: final(self).steam_stored,
                power_generated: final(self).power_generated,
                ticks_without_power: final(self).ticks_without_power,
                low_power_warning: final(self).low_power_warning,
                over: final(self).over,
                ..*old(self)
            }),
            ({
                let conv = converted_spec(
                    old(self).demand.0 as int,
                    old(self).power_generated as int,
                    old(self).next_demand.delta as int,
                    old(self).steam_stored as int,
                );
                let unmet = deficit_spec(old(self).demand.0 as int, old(self).power_generated as int)
                    > conv;
                let counter = shortfall_update(old(self).ticks_without_power.0 as int, unmet);
                &&& final(self).steam_stored == old(self).steam_stored - conv
                &&& final(self).power_generated == sat_add_spec(
                    old(self).power_generated as int,
                    conv,
                )
                &&& final(self).ticks_without_power.0 == counter
                &&& (counter > old(self).config.low_power_fail_ticks ==> final(self).over == Some(
                    GameOver {
                        cause: GameOverCause::NotEnoughPower,
                        power_generated: final(self).power_generated,
                    },
                ) && final(self).low_power_warning == old(self).low_power_warning)
                &&& (counter <= old(self).config.low_power_fail_ticks ==> final(self).over is None
                    && final(self).low_power_warning == (counter
                    > old(self).config.low_power_warn_ticks))
            }),
    {
        let mut steam = self.steam_stored;
        let mut power = self.power_generated;
        let unmet = convert_steam_to_power(
            self.demand.0,
            self.next_demand.delta,
            &mut steam,
            &mut power,
        );
        self.steam_stored = steam;
        self.power_generated = power;
        let mut ticks = self.ticks_without_power;
        update_shortfall(&mut ticks, unmet);
        self.ticks_without_power = ticks;
        match assess_power(&self.ticks_without_power, &self.config) {
            PowerStatus::Failed => {
                self.over = Some(
                    GameOver {
                        cause: GameOverCause::NotEnoughPower,
                        power_generated: self.power_generated,
                    },
                );
            },
            PowerStatus::LowPower => {
                self.low_power_warning = true;
            },
            PowerStatus::Normal => {
                self.low_power_warning = false;
            },
        }
    }

    /// Emit neutrons for this release tick: every Uranium cell gets up to
    /// the configured number of independent trials, each succeeding with
    /// the configured chance and emitting one neutron at a uniformly
    /// random angle with the configured lifetime. Emission pauses while
    /// the population is at the cap. Whatever the draws, existing
    /// neutrons are untouched and only new ones are appended.
    fn launch_neutrons(&mut self)
        requires
            old(self).wf(),
        ensures
            final(self).wf(),
            *final(self) == (Reactor { neutrons: final(self).neutrons, ..*old(self) }),
            final(self).neutrons@.len() >= old(self).neutrons@.len(),
            forall|k: int|
                0 <= k < old(self).neutrons@.len() ==> final(self).neutrons@[k] == old(self).neutrons@[k],
            forall|k: int|
                old(self).neutrons@.len() <= k < final(self).neutrons@.len() ==> {
                    let fresh = #[trigger] final(self).neutrons@[k];
                    &&& fresh.state == crate::neutron::Neutron::Active
                    &&& fresh.distance == 0
                    &&& fresh.expiry_ms == old(self).config.neutron_lifetime_ms
                    &&& fresh.origin < old(self).core.n()
                    &&& old(self).core.cells@[fresh.origin as int].fuel == FuelRod::Uranium
                },
            forall|c: int|
                count_with_origin(
                    final(self).neutrons@.skip(old(self).neutrons@.len() as int),
                    c,
                ) <= old(self).config.max_neutrons_released_per_tick,
    {
        let n = self.core.cells.len();
        let ghost orig = *self;
        let ghost base = orig.neutrons@.len() as int;
        let mut i: usize = 0;
        proof {
            assert(self.neutrons@.skip(base) =~= Seq::<NeutronParticle>::empty());
            assert forall|c: int| true implies count_with_origin(self.neutrons@.skip(base), c)
                == 0 by {
                assert(self.neutrons@.skip(base).len() == 0);
            }
        }
        while i < n
            invariant
                orig.wf(),
                n == self.core.cells@.len(),
                n == orig.core.cells@.len(),
                i <= n,
                base == orig.neutrons@.len(),
                *self == (Reactor { neutrons: self.neutrons, ..orig }),
                self.neutrons@.len() >= orig.neutrons@.len(),
                forall|k: int|
                    0 <= k < orig.neutrons@.len() ==> self.neutrons@[k] == orig.neutrons@[k],
                forall|k: int| 0 <= k < self.neutrons@.len() ==> (#[trigger] self.neutrons@[k]).wf(),
                forall|k: int|
                    orig.neutrons@.len() <= k < self.neutrons@.len() ==> {
                        let fresh = #[trigger] self.neutrons@[k];
                        &&& fresh.state == crate::neutron::Neutron::Active
                        &&& fresh.distance == 0
                        &&& fresh.expiry_ms == orig.config.neutron_lifetime_ms
                        &&& fresh.origin < orig.core.n()
                        &&& orig.core.cells@[fresh.origin as int].fuel == FuelRod::Uranium
                    },
                forall|c: int|
                    i <= c ==> count_with_origin(#[trigger] self.neutrons@.skip(base), c) == 0,
                forall|c: int|
                    c < i ==> count_with_origin(#[trigger] self.neutrons@.skip(base), c)
                        <= orig.config.max_neutrons_released_per_tick,
            decreases n - i,
        {
            let is_uranium = match self.core.cells[i].fuel {
                FuelRod::Uranium => true,
                FuelRod::Xenon => false,
            };
            if is_uranium {
                let trials = self.config.max_neutrons_released_per_tick;
                let mut t: u64 = 0;
                while t < trials
                    invariant
                        orig.wf(),
                        t <= trials,
                        trials == orig.config.max_neutrons_released_per_tick,
                        i < n,
                        n == orig.core.cells@.len(),
                        base == orig.neutrons@.len(),
                        orig.core.cells@[i as int].fuel == FuelRod::Uranium,
                        *self == (Reactor { neutrons: self.neutrons, ..orig }),
                        self.neutrons@.len() >= orig.neutrons@.len(),
                        forall|k: int|
                            0 <= k < orig.neutrons@.len() ==> self.neutrons@[k] == orig.neutrons@[k],
                        forall|k: int|
                            0 <= k < self.neutrons@.len() ==> (#[trigger] self.neutrons@[k]).wf(),
                        forall|k: int|
                            orig.neutrons@.len() <= k < self.neutrons@.len() ==> {
                                let fresh = #[trigger] self.neutrons@[k];
                                &&& fresh.state == crate::neutron::Neutron::Active
                                &&& fresh.distance == 0
                                &&& fresh.expiry_ms == orig.config.neutron_lifetime_ms
                                &&& fresh.origin < orig.core.n()
                                &&& orig.core.cells@[fresh.origin as int].fuel == FuelRod::Uranium
                            },
                        count_with_origin(self.neutrons@.skip(base), i as int) <= t,
                        forall|c: int|
                            i < c ==> count_with_origin(#[trigger] self.neutrons@.skip(base), c)
                                == 0,
                        forall|c: int|
                            c < i ==> count_with_origin(#[trigger] self.neutrons@.skip(base), c)
                                <= orig.config.max_neutrons_released_per_tick,
                    decreases trials - t,
                {
                    if self.neutrons.len() < NEUTRON_SPAWN_CAP {
                        let draw = random_below(SCALE);
                        if draw < self.config.neutron_spawn_chance {
                            let angle = random_below(TURN);
                            let ghost before = self.neutrons@;
                            spawn_neutron(
                                &mut self.neutrons,
                                i,
                                angle,
                                self.config.neutron_lifetime_ms,
                            );
                            proof {
                                let x = self.neutrons@.last();
                                assert(self.neutrons@.skip(base) =~= before.skip(base).push(x));
                                assert forall|c: int| true implies count_with_origin(
                                    self.neutrons@.skip(base),
                                    c,
                                ) == count_with_origin(before.skip(base), c) + (if x.origin == c {
                                    1int
                                } else {
                                    0int
                                }) by {
                                    crate::neutron::lemma_count_with_origin_push(
                                        before.skip(base),
                                        x,
                                        c,
                                    );
                                }
                            }
                        }
                    }
                    t = t + 1;
                }
            }
            i = i + 1;
        }
    }

    /// The spontaneous poisoning step, once per tick regardless of phase:
    /// every non-Xenon cell converts to Xenon with the configured chance.
    /// Whatever the draws, only fuel fields change, and only toward Xenon.
    fn xenon_background(&mut self)
        requires
            old(self).wf(),
        ensures
            final(self).wf(),
            *final(self) == (Reactor { core: final(self).core, ..*old(self) }),
            same_shape(old(self).core, final(self).core),
            final(self).core.cells@.len() == old(self).core.cells@.len(),
            forall|i: int|
                0 <= i < old(self).core.n() ==> {
                    &&& final(self).core.cells@[i] == (ReactorCell {
                        fuel: final(self).core.cells@[i].fuel,
                        ..old(self).core.cells@[i]
                    })
                    &&& (final(self).core.cells@[i].fuel == old(self).core.cells@[i].fuel || final(self).core.cells@[i].fuel == FuelRod::Xenon)
                },
    {
        let ghost orig = *self;
        let n = self.core.cells.len();
        let mut i: usize = 0;
        while i < n
            invariant
                orig.wf(),
                n == orig.core.cells@.len(),
                i <= n,
                *self == (Reactor { core: self.core, ..orig }),
                self.core == (ReactorCore { cells: self.core.cells, ..orig.core }),
                self.core.cells@.len() == n,
                forall|k: int|
                    0 <= k < i ==> {
                        &&& self.core.cells@[k] == (ReactorCell {
                            fuel: self.core.cells@[k].fuel,
                            ..orig.core.cells@[k]
                        })
                        &&& (self.core.cells@[k].fuel == orig.core.cells@[k].fuel
                            || self.core.cells@[k].fuel == FuelRod::Xenon)
                    },
                forall|k: int| i <= k < n ==> self.core.cells@[k] == orig.core.cells@[k],
            decreases n - i,
        {
            let c = self.core.cells[i];
            let is_xenon = match c.fuel {
                FuelRod::Xenon => true,
                FuelRod::Uranium => false,
            };
            if !is_xenon {
                let draw = random_below(SCALE);
                if draw < self.config.xenon_spawn_chance_per_tick {
                    let mut updated = c;
                    updated.fuel = FuelRod::Xenon;
                    self.core.cells.set(i, updated);
                }
            }
            i = i + 1;
        }
        proof {
            lemma_same_shape_graph_wf(orig.core, self.core);
        }
    }

    /// Advance every neutron by one tick's simulated time and sweep out
    /// those whose fade has elapsed.
    fn advance_neutron_population(&mut self)
        requires
            old(self).wf(),
        ensures
            final(self).wf(),
            *final(self) == (Reactor { neutrons: final(self).neutrons, ..*old(self) }),
            final(self).neutrons@ == surviving(
                old(self).neutrons@.map_values(
                    |m: NeutronParticle| advanced_neutron(
                        old(self).config,
                        m,
                        old(self).sim.timestep_ms as int,
                    ),
                ),
            ),
    {
        let ghost orig = *self;
        let delta = self.sim.timestep_ms;
        advance_neutrons(&mut self.neutrons, &self.config, delta);
        proof {
            let mapped = orig.neutrons@.map_values(
                |m: NeutronParticle| advanced_neutron(orig.config, m, delta as int),
            );
            assert forall|k: int| 0 <= k < mapped.len() implies (#[trigger] mapped[k]).wf() by {
                assert(orig.neutrons@[k].wf());
            }
            crate::neutron::lemma_surviving_wf(mapped);
        }
    }

    /// Run one full tick of the pipeline. A session that is already over
    /// is left untouched — termination ends further ticking.
    ///
    /// Exactly one phase advance occurs per tick; only the stages gated
    /// to the current phase run, so a full round of all computations
    /// spans four ticks. The mapping chosen here: PowerGeneration runs
    /// the reactivity chain and the steam-to-power conversion; WaterFlow
    /// refills the water store and distributes coolant; NeutronRelease
    /// emits neutrons; SteamVenting runs the thermal diffusion, the
    /// per-cell steam/pressure step, the venting sweep and the
    /// overpressure check. Neutron travel and the spontaneous poisoning
    /// step run every tick regardless of phase.
    #[verifier::rlimit(100)]
    pub fn tick(&mut self)
        requires
            old(self).wf(),
        ensures
            final(self).wf(),
            final(self).config == old(self).config,
            final(self).sim == old(self).sim,
            old(self).over is Some ==> *final(self) == *old(self),
            old(self).over is None ==> {
                &&& final(self).phase == old(self).phase.next_spec()
                &&& final(self).ticks_elapsed == sat_add_spec(old(self).ticks_elapsed as int, 1)
                &&& same_shape(old(self).core, final(self).core)
                &&& (final(self).over is Some && old(self).over is None ==> {
                    let g = final(self).over->0;
                    &&& g.power_generated == final(self).power_generated
                    &&& (g.cause == GameOverCause::NotEnoughPower || g.cause
                        == GameOverCause::Explosion)
                    &&& (g.cause == GameOverCause::NotEnoughPower ==> old(self).phase
                        == Phase::PowerGeneration)
                    &&& (g.cause == GameOverCause::Explosion ==> old(self).phase
                        == Phase::SteamVenting)
                })
            },
            old(self).over is None && old(self).phase == Phase::PowerGeneration ==> ({
                let conv = converted_spec(
                    old(self).demand.0 as int,
                    old(self).power_generated as int,
                    old(self).next_demand.delta as int,
                    old(self).steam_stored as int,
                );
                let unmet = deficit_spec(old(self).demand.0 as int, old(self).power_generated as int)
                    > conv;
                let counter = shortfall_update(old(self).ticks_without_power.0 as int, unmet);
                &&& final(self).steam_stored == old(self).steam_stored - conv
                &&& final(self).power_generated == sat_add_spec(
                    old(self).power_generated as int,
                    conv,
                )
                &&& final(self).ticks_without_power.0 == counter
                &&& (final(self).over is Some <==> counter > old(self).config.low_power_fail_ticks)
                &&& final(self).low_power_warning == (if counter
                    > old(self).config.low_power_fail_ticks {
                    old(self).low_power_warning
                } else {
                    counter > old(self).config.low_power_warn_ticks
                })
                &&& forall|i: int|
                    0 <= i < old(self).core.n() ==> final(self).core.cells@[i] == (ReactorCell {
                        fuel: final(self).core.cells@[i].fuel,
                        ..crate::reactivity::with_reactivity(
                            crate::reactivity::with_local_reactivity(
                                old(self).core.cells@[i],
                                crate::reactivity::local_reactivity_spec(
                                    old(self).config,
                                    old(self).core.cells@[i],
                                ),
                            ),
                            crate::reactivity::chained_reactivity(
                                old(self).config,
                                old(self).core,
                                i,
                            ),
                        )
                    })
            }),
            old(self).over is None && old(self).phase == Phase::SteamVenting ==> {
                &&& final(self).water_stored == old(self).water_stored
                &&& final(self).power_generated == old(self).power_generated
                &&& forall|i: int|
                    #![trigger final(self).core.cells@[i]]
                    0 <= i < old(self).core.n() ==> crate::coolant::steam_step_rel(
                        old(self).config,
                        crate::reactivity::with_temperature(
                            old(self).core.cells@[i],
                            crate::reactivity::temperature_update_spec(
                                old(self).config,
                                old(self).core.cells@[i],
                                crate::reactivity::diffused_ambient(old(self).core, i),
                            ),
                        ),
                        (ReactorCell {
                            fuel: old(self).core.cells@[i].fuel,
                            ..final(self).core.cells@[i]
                        }),
                    )
                &&& final(self).steam_stored == vented_total(
                    old(self).steam_stored as int,
                    final(self).core.cells@,
                )
                &&& ((exists|i: int|
                    0 <= i < old(self).core.n() && (#[trigger] final(self).core.cells@[i]).pressure
                        > old(self).config.pressure_explosion_level) <==> final(self).over is Some)
                &&& (final(self).over is None ==> final(self).overpressure_warning == (exists|i: int|
                    0 <= i < old(self).core.n() && (#[trigger] final(self).core.cells@[i]).pressure
                        > old(self).config.pressure_warn_level))
            },
            old(self).over is None && old(self).phase != Phase::NeutronRelease
                ==> final(self).neutrons@ == surviving(
                old(self).neutrons@.map_values(
                    |m: NeutronParticle| advanced_neutron(
                        old(self).config,
                        m,
                        old(self).sim.timestep_ms as int,
                    ),
                ),
            ),
            old(self).over is None && old(self).phase == Phase::NeutronRelease
                ==> (exists|spawned: Seq<NeutronParticle>|
                #![trigger spawned.len()]
                {
                    &&& final(self).neutrons@ == surviving(
                        (old(self).neutrons@ + spawned).map_values(
                            |m: NeutronParticle| advanced_neutron(
                                old(self).config,
                                m,
                                old(self).sim.timestep_ms as int,
                            ),
                        ),
                    )
                    &&& forall|k: int|
                        0 <= k < spawned.len() ==> {
                            let fresh = #[trigger] spawned[k];
                            &&& fresh.state == crate::neutron::Neutron::Active
                            &&& fresh.distance == 0
                            &&& fresh.expiry_ms == old(self).config.neutron_lifetime_ms
                            &&& fresh.origin < old(self).core.n()
                            &&& old(self).core.cells@[fresh.origin as int].fuel == FuelRod::Uranium
                        }
                    &&& forall|c: int|
                        count_with_origin(spawned, c)
                            <= old(self).config.max_neutrons_released_per_tick
                }),
            old(self).over is None && old(self).phase == Phase::WaterFlow ==> {
                &&& final(self).over is None
                &&& final(self).water_stored == min_spec(
                    sat_add_spec(
                        old(self).water_stored as int,
                        old(self).config.water_created_per_tick as int,
                    ),
                    old(self).config.max_water_stored as int,
                )
                &&& final(self).steam_stored == old(self).steam_stored
                &&& final(self).power_generated == old(self).power_generated
                &&& forall|i: int|
                    0 <= i < old(self).core.n() ==> final(self).core.cells@[i] == (ReactorCell {
                        fuel: final(self).core.cells@[i].fuel,
                        ..crate::coolant::with_steam_pull_capacity(
                            crate::coolant::with_coolant_flow(
                                old(self).core.cells@[i],
                                crate::coolant::coolant_flow_spec(
                                    old(self).core,
                                    old(self).config,
                                    i,
                                ),
                            ),
                            old(self).config.steam_pull_capacity as int,
                        )
                    })
            },
            old(self).over is None && old(self).phase == Phase::NeutronRelease ==> {
                &&& final(self).over is None
                &&& final(self).water_stored == old(self).water_stored
                &&& final(self).steam_stored == old(self).steam_stored
                &&& final(self).power_generated == old(self).power_generated
                &&& forall|i: int|
                    0 <= i < old(self).core.n() ==> final(self).core.cells@[i] == (ReactorCell {
                        fuel: final(self).core.cells@[i].fuel,
                        ..old(self).core.cells@[i]
                    })
            },
            old(self).over is None ==> forall|i: int|
                0 <= i < old(self).core.n() ==> ((#[trigger] final(self).core.cells@[i]).fuel
                    == old(self).core.cells@[i].fuel || final(self).core.cells@[i].fuel
                    == FuelRod::Xenon),
    {
        if self.over.is_some() {
            return ;
        }
        match self.phase {
            Phase::PowerGeneration => {
                self.tick_from_power_generation();
            },
            Phase::WaterFlow => {
                self.tick_from_water_flow();
            },
            Phase::NeutronRelease => {
                self.tick_from_neutron_release();
            },
            Phase::SteamVenting => {
                self.tick_from_steam_venting();
            },
        }
    }

    /// One full tick entered in the PowerGeneration phase: the reactivity
    /// chain and the steam-to-power conversion, then the every-tick
    /// neutron travel and poisoning steps and the phase advance.
    #[verifier::rlimit(100)]
    fn tick_from_power_generation(&mut self)
        requires
            old(self).wf(),
            old(self).over is None,
            old(self).phase == Phase::PowerGeneration,
        ensures
            final(self).wf(),
            final(self).config == old(self).config,
            final(self).sim == old(self).sim,
            final(self).phase == old(self).phase.next_spec(),
            final(self).ticks_elapsed == sat_add_spec(old(self).ticks_elapsed as int, 1),
            same_shape(old(self).core, final(self).core),
            forall|i: int|
                0 <= i < old(self).core.n() ==> ((#[trigger] final(self).core.cells@[i]).fuel
                    == old(self).core.cells@[i].fuel || final(self).core.cells@[i].fuel
                    == FuelRod::Xenon),
            final(self).neutrons@ == surviving(
                old(self).neutrons@.map_values(
                    |m: NeutronParticle| advanced_neutron(
                        old(self).config,
                        m,
                        old(self).sim.timestep_ms as int,
                    ),
                ),
            ),
            final(self).water_stored == old(self).water_stored,
            final(self).over is Some ==> final(self).over == Some(
                GameOver {
                    cause: GameOverCause::NotEnoughPower,
                    power_generated: final(self).power_generated,
                },
            ),
            ({
                let conv = converted_spec(
                    old(self).demand.0 as int,
                    old(self).power_generated as int,
                    old(self).next_demand.delta as int,
                    old(self).steam_stored as int,
                );
                let unmet = deficit_spec(old(self).demand.0 as int, old(self).power_generated as int)
                    > conv;
                let counter = shortfall_update(old(self).ticks_without_power.0 as int, unmet);
                &&& final(self).steam_stored == old(self).steam_stored - conv
                &&& final(self).power_generated == sat_add_spec(
                    old(self).power_generated as int,
                    conv,
                )
                &&& final(self).ticks_without_power.0 == counter
                &&& (final(self).over is Some <==> counter > old(self).config.low_power_fail_ticks)
                &&& final(self).low_power_warning == (if counter
                    > old(self).config.low_power_fail_ticks {
                    old(self).low_power_warning
                } else {
                    counter > old(self).config.low_power_warn_ticks
                })
            }),
            forall|i: int|
                0 <= i < old(self).core.n() ==> final(self).core.cells@[i] == (ReactorCell {
                    fuel: final(self).core.cells@[i].fuel,
                    ..crate::reactivity::with_reactivity(
                        crate::reactivity::with_local_reactivity(
                            old(self).core.cells@[i],
                            crate::reactivity::local_reactivity_spec(
                                old(self).config,
                                old(self).core.cells@[i],
                            ),
                        ),
                        crate::reactivity::chained_reactivity(old(self).config, old(self).core, i),
                    )
                }),
    {
        self.run_power_generation();
        let ghost s_stage = *self;
        self.advance_neutron_population();
        let ghost s_adv = *self;
        self.xenon_background();
        self.phase = self.phase.next();
        self.ticks_elapsed = sat_add(self.ticks_elapsed, 1);
        proof {
            let cfg0 = old(self).config;
            let t0 = old(self).sim.timestep_ms as int;
            let advance = |m: NeutronParticle| advanced_neutron(cfg0, m, t0);
            let stage_advance = |m: NeutronParticle| advanced_neutron(
                s_stage.config,
                m,
                s_stage.sim.timestep_ms as int,
            );
            assert(s_stage.neutrons@.map_values(stage_advance) =~= old(self).neutrons@.map_values(
                advance,
            ));
            assert(self.neutrons@ == surviving(old(self).neutrons@.map_values(advance)));
            assert(s_adv.core == s_stage.core);
            assert forall|i: int|
                0 <= i < old(self).core.n() implies #[trigger] self.core.cells@[i] == (ReactorCell {
                fuel: self.core.cells@[i].fuel,
                ..s_stage.core.cells@[i]
            }) by {
                assert(self.core.cells@[i] == (ReactorCell {
                    fuel: self.core.cells@[i].fuel,
                    ..s_adv.core.cells@[i]
                }));
            }
        }
    }

    /// One full tick entered in the WaterFlow phase: the water store
    /// refill, the coolant distribution and the pull-capacity reset, then
    /// the every-tick steps.
    #[verifier::rlimit(100)]
    fn tick_from_water_flow(&mut self)
        requires
            old(self).wf(),
            old(self).over is None,
            old(self).phase == Phase::WaterFlow,
        ensures
            final(self).wf(),
            final(self).config == old(self).config,
            final(self).sim == old(self).sim,
            final(self).phase == old(self).phase.next_spec(),
            final(self).ticks_elapsed == sat_add_spec(old(self).ticks_elapsed as int, 1),
            same_shape(old(self).core, final(self).core),
            forall|i: int|
                0 <= i < old(self).core.n() ==> ((#[trigger] final(self).core.cells@[i]).fuel
                    == old(self).core.cells@[i].fuel || final(self).core.cells@[i].fuel
                    == FuelRod::Xenon),
            final(self).neutrons@ == surviving(
                old(self).neutrons@.map_values(
                    |m: NeutronParticle| advanced_neutron(
                        old(self).config,
                        m,
                        old(self).sim.timestep_ms as int,
                    ),
                ),
            ),
            final(self).over is None,
            final(self).water_stored == min_spec(
                sat_add_spec(
                    old(self).water_stored as int,
                    old(self).config.water_created_per_tick as int,
                ),
                old(self).config.max_water_stored as int,
            ),
            final(self).steam_stored == old(self).steam_stored,
            final(self).power_generated == old(self).power_generated,
            forall|i: int|
                0 <= i < old(self).core.n() ==> final(self).core.cells@[i] == (ReactorCell {
                    fuel: final(self).core.cells@[i].fuel,
                    ..crate::coolant::with_steam_pull_capacity(
                        crate::coolant::with_coolant_flow(
                            old(self).core.cells@[i],
                            crate::coolant::coolant_flow_spec(old(self).core, old(self).config, i),
                        ),
                        old(self).config.steam_pull_capacity as int,
                    )
                }),
    {
        self.run_water_flow();
        let ghost s_stage = *self;
        self.advance_neutron_population();
        let ghost s_adv = *self;
        self.xenon_background();
        self.phase = self.phase.next();
        self.ticks_elapsed = sat_add(self.ticks_elapsed, 1);
        proof {
            let cfg0 = old(self).config;
            let t0 = old(self).sim.timestep_ms as int;
            let advance = |m: NeutronParticle| advanced_neutron(cfg0, m, t0);
            let stage_advance = |m: NeutronParticle| advanced_neutron(
                s_stage.config,
                m,
                s_stage.sim.timestep_ms as int,
            );
            assert(s_stage.neutrons@.map_values(stage_advance) =~= old(self).neutrons@.map_values(
                advance,
            ));
            assert(self.neutrons@ == surviving(old(self).neutrons@.map_values(advance)));
            assert(s_adv.core == s_stage.core);
            assert forall|i: int|
                0 <= i < old(self).core.n() implies #[trigger] self.core.cells@[i] == (ReactorCell {
                fuel: self.core.cells@[i].fuel,
                ..s_stage.core.cells@[i]
            }) by {
                assert(self.core.cells@[i] == (ReactorCell {
                    fuel: self.core.cells@[i].fuel,
                    ..s_adv.core.cells@[i]
                }));
            }
        }
    }

    /// One full tick entered in the NeutronRelease phase: the emission
    /// trials, then the every-tick steps. Whatever the draws, the new
    /// population extends the old by fresh neutrons emitted at Uranium
    /// cells, at most the configured number per cell, before the whole
    /// population takes its travel step.
    #[verifier::rlimit(100)]
    fn tick_from_neutron_release(&mut self)
        requires
            old(self).wf(),
            old(self).over is None,
            old(self).phase == Phase::NeutronRelease,
        ensures
            final(self).wf(),
            final(self).config == old(self).config,
            final(self).sim == old(self).sim,
            final(self).phase == old(self).phase.next_spec(),
            final(self).ticks_elapsed == sat_add_spec(old(self).ticks_elapsed as int, 1),
            same_shape(old(self).core, final(self).core),
            forall|i: int|
                0 <= i < old(self).core.n() ==> ((#[trigger] final(self).core.cells@[i]).fuel
                    == old(self).core.cells@[i].fuel || final(self).core.cells@[i].fuel
                    == FuelRod::Xenon),
            final(self).over is None,
            final(self).water_stored == old(self).water_stored,
            final(self).steam_stored == old(self).steam_stored,
            final(self).power_generated == old(self).power_generated,
            forall|i: int|
                0 <= i < old(self).core.n() ==> final(self).core.cells@[i] == (ReactorCell {
                    fuel: final(self).core.cells@[i].fuel,
                    ..old(self).core.cells@[i]
                }),
            exists|spawned: Seq<NeutronParticle>|
                #![trigger spawned.len()]
                {
                    &&& final(self).neutrons@ == surviving(
                        (old(self).neutrons@ + spawned).map_values(
                            |m: NeutronParticle| advanced_neutron(
                                old(self).config,
                                m,
                                old(self).sim.timestep_ms as int,
                            ),
                        ),
                    )
                    &&& forall|k: int|
                        0 <= k < spawned.len() ==> {
                            let fresh = #[trigger] spawned[k];
                            &&& fresh.state == crate::neutron::Neutron::Active
                            &&& fresh.distance == 0
                            &&& fresh.expiry_ms == old(self).config.neutron_lifetime_ms
                            &&& fresh.origin < old(self).core.n()
                            &&& old(self).core.cells@[fresh.origin as int].fuel == FuelRod::Uranium
                        }
                    &&& forall|c: int|
                        count_with_origin(spawned, c)
                            <= old(self).config.max_neutrons_released_per_tick
                },
    {
        self.launch_neutrons();
        let ghost s_stage = *self;
        self.advance_neutron_population();
        let ghost s_adv = *self;
        self.xenon_background();
        self.phase = self.phase.next();
        self.ticks_elapsed = sat_add(self.ticks_elapsed, 1);
        proof {
            let cfg0 = old(self).config;
            let t0 = old(self).sim.timestep_ms as int;
            let advance = |m: NeutronParticle| advanced_neutron(cfg0, m, t0);
            let stage_advance = |m: NeutronParticle| advanced_neutron(
                s_stage.config,
                m,
                s_stage.sim.timestep_ms as int,
            );
            let spawned = s_stage.neutrons@.skip(old(self).neutrons@.len() as int);
            assert(s_stage.neutrons@ =~= old(self).neutrons@ + spawned);
            assert(s_stage.neutrons@.map_values(stage_advance) =~= (old(self).neutrons@
                + spawned).map_values(advance));
            assert(self.neutrons@ == surviving((old(self).neutrons@ + spawned).map_values(advance)));
            assert forall|k: int| 0 <= k < spawned.len() implies {
                let fresh = #[trigger] spawned[k];
                &&& fresh.state == crate::neutron::Neutron::Active
                &&& fresh.distance == 0
                &&& fresh.expiry_ms == old(self).config.neutron_lifetime_ms
                &&& fresh.origin < old(self).core.n()
                &&& old(self).core.cells@[fresh.origin as int].fuel == FuelRod::Uranium
            } by {
                assert(spawned[k] == s_stage.neutrons@[old(self).neutrons@.len() + k]);
            }
            assert(s_adv.core == s_stage.core);
            assert forall|i: int|
                0 <= i < old(self).core.n() implies #[trigger] self.core.cells@[i] == (ReactorCell {
                fuel: self.core.cells@[i].fuel,
                ..s_stage.core.cells@[i]
            }) by {
                assert(self.core.cells@[i] == (ReactorCell {
                    fuel: self.core.cells@[i].fuel,
                    ..s_adv.core.cells@[i]
                }));
            }
        }
    }

    /// One full tick entered in the SteamVenting phase: thermal diffusion,
    /// the per-cell steam/pressure step, the venting sweep and the
    /// overpressure check, then the every-tick steps.
    #[verifier::rlimit(100)]
    fn tick_from_steam_venting(&mut self)
        requires
            old(self).wf(),
            old(self).over is None,
            old(self).phase == Phase::SteamVenting,
        ensures
            final(self).wf(),
            final(self).config == old(self).config,
            final(self).sim == old(self).sim,
            final(self).phase == old(self).phase.next_spec(),
            final(self).ticks_elapsed == sat_add_spec(old(self).ticks_elapsed as int, 1),
            same_shape(old(self).core, final(self).core),
            forall|i: int|
                0 <= i < old(self).core.n() ==> ((#[trigger] final(self).core.cells@[i]).fuel
                    == old(self).core.cells@[i].fuel || final(self).core.cells@[i].fuel
                    == FuelRod::Xenon),
            final(self).neutrons@ == surviving(
                old(self).neutrons@.map_values(
                    |m: NeutronParticle| advanced_neutron(
                        old(self).config,
                        m,
                        old(self).sim.timestep_ms as int,
                    ),
                ),
            ),
            final(self).water_stored == old(self).water_stored,
            final(self).power_generated == old(self).power_generated,
            final(self).over is Some ==> final(self).over == Some(
                GameOver {
                    cause: GameOverCause::Explosion,
                    power_generated: final(self).power_generated,
                },
            ),
            forall|i: int|
                #![trigger final(self).core.cells@[i]]
                0 <= i < old(self).core.n() ==> crate::coolant::steam_step_rel(
                    old(self).config,
                    crate::reactivity::with_temperature(
                        old(self).core.cells@[i],
                        crate::reactivity::temperature_update_spec(
                            old(self).config,
                            old(self).core.cells@[i],
                            crate::reactivity::diffused_ambient(old(self).core, i),
                        ),
                    ),
                    (ReactorCell {
                        fuel: old(self).core.cells@[i].fuel,
                        ..final(self).core.cells@[i]
                    }),
                ),
            final(self).steam_stored == vented_total(
                old(self).steam_stored as int,
                final(self).core.cells@,
            ),
            (exists|i: int|
                0 <= i < old(self).core.n() && (#[trigger] final(self).core.cells@[i]).pressure
                    > old(self).config.pressure_explosion_level) <==> final(self).over is Some,
            final(self).over is None ==> final(self).overpressure_warning == (exists|i: int|
                0 <= i < old(self).core.n() && (#[trigger] final(self).core.cells@[i]).pressure
                    > old(self).config.pressure_warn_level),
    {
        self.run_steam_venting();
        let ghost s_stage = *self;
        self.advance_neutron_population();
        let ghost s_adv = *self;
        self.xenon_background();
        self.phase = self.phase.next();
        self.ticks_elapsed = sat_add(self.ticks_elapsed, 1);
        proof {
            let cfg0 = old(self).config;
            let t0 = old(self).sim.timestep_ms as int;
            let advance = |m: NeutronParticle| advanced_neutron(cfg0, m, t0);
            let stage_advance = |m: NeutronParticle| advanced_neutron(
                s_stage.config,
                m,
                s_stage.sim.timestep_ms as int,
            );
            assert(s_stage.neutrons@.map_values(stage_advance) =~= old(self).neutrons@.map_values(
                advance,
            ));
            assert(self.neutrons@ == surviving(old(self).neutrons@.map_values(advance)));
            assert(s_adv.core == s_stage.core);
            assert forall|i: int|
                0 <= i < old(self).core.n() implies #[trigger] self.core.cells@[i] == (ReactorCell {
                fuel: self.core.cells@[i].fuel,
                ..s_stage.core.cells@[i]
            }) by {
                assert(self.core.cells@[i] == (ReactorCell {
                    fuel: self.core.cells@[i].fuel,
                    ..s_adv.core.cells@[i]
                }));
            }
            assert forall|i: int|
                0 <= i < old(self).core.n() implies (#[trigger] self.core.cells@[i]).pressure
                    == s_stage.core.cells@[i].pressure && self.core.cells@[i].steam_output
                    == s_stage.core.cells@[i].steam_output by {
                assert(self.core.cells@[i] == (ReactorCell {
                    fuel: self.core.cells@[i].fuel,
                    ..s_adv.core.cells@[i]
                }));
            }
            lemma_vented_total_same_outputs(
                old(self).steam_stored as int,
                s_stage.core.cells@,
                self.core.cells@,
            );
            if exists|i: int|
                0 <= i < old(self).core.n() && (#[trigger] self.core.cells@[i]).pressure > old(
                self,
            ).config.pressure_explosion_level {
                let w = choose|i: int|
                    0 <= i < old(self).core.n() && (#[trigger] self.core.cells@[i]).pressure > old(
                        self,
                    ).config.pressure_explosion_level;
                assert(s_stage.core.cells@[w].pressure > old(self).config.pressure_explosion_level);
            } else if exists|i: int|
                0 <= i < old(self).core.n() && (#[trigger] s_stage.core.cells@[i]).pressure > old(
                self,
            ).config.pressure_explosion_level {
                let w = choose|i: int|
                    0 <= i < old(self).core.n() && (#[trigger] s_stage.core.cells@[i]).pressure
                        > old(self).config.pressure_explosion_level;
                assert(self.core.cells@[w].pressure > old(self).config.pressure_explosion_level);
            }
            if self.over is None {
                if exists|i: int|
                    0 <= i < old(self).core.n() && (#[trigger] self.core.cells@[i]).pressure > old(
                    self,
                ).config.pressure_warn_level {
                    let w = choose|i: int|
                        0 <= i < old(self).core.n() && (#[trigger] self.core.cells@[i]).pressure
                            > old(self).config.pressure_warn_level;
                    assert(s_stage.core.cells@[w].pressure > old(self).config.pressure_warn_level);
                } else if exists|i: int|
                    0 <= i < old(self).core.n() && (#[trigger] s_stage.core.cells@[i]).pressure
                        > old(self).config.pressure_warn_level {
                    let w = choose|i: int|
                        0 <= i < old(self).core.n() && (#[trigger] s_stage.core.cells@[i]).pressure
                            > old(self).config.pressure_warn_level;
                    assert(self.core.cells@[w].pressure > old(self).config.pressure_warn_level);
                }
            }
        }
    }

    /// The PowerGeneration stages: the reactivity chain, then the
    /// steam-to-power conversion with its shortfall bookkeeping.
    #[verifier::rlimit(100)]
    fn run_power_generation(&mut self)
        requires
            old(self).wf(),
            old(self).over is None,
        ensures
            final(self).wf(),
            *final(self) == (Reactor {
                core: final(self).core,
                steam_stored: final(self).steam_stored,
                power_generated: final(self).power_generated,
                ticks_without_power: final(self).ticks_without_power,
                low_power_warning: final(self).low_power_warning,
                over: final(self).over,
                ..*old(self)
            }),
            same_shape(old(self).core, final(self).core),
            final(self).core.cells@.len() == old(self).core.cells@.len(),
            forall|i: int|
                0 <= i < old(self).core.n() ==> final(self).core.cells@[i]
                    == crate::reactivity::with_reactivity(
                    crate::reactivity::with_local_reactivity(
                        old(self).core.cells@[i],
                        crate::reactivity::local_reactivity_spec(
                            old(self).config,
                            old(self).core.cells@[i],
                        ),
                    ),
                    crate::reactivity::chained_reactivity(old(self).config, old(self).core, i),
                ),
            ({
                let conv = converted_spec(
                    old(self).demand.0 as int,
                    old(self).power_generated as int,
                    old(self).next_demand.delta as int,
                    old(self).steam_stored as int,
                );
                let unmet = deficit_spec(old(self).demand.0 as int, old(self).power_generated as int)
                    > conv;
                let counter = shortfall_update(old(self).ticks_without_power.0 as int, unmet);
                &&& final(self).steam_stored == old(self).steam_stored - conv
                &&& final(self).power_generated == sat_add_spec(
                    old(self).power_generated as int,
                    conv,
                )
                &&& final(self).ticks_without_power.0 == counter
                &&& (counter > old(self).config.low_power_fail_ticks ==> final(self).over == Some(
                    GameOver {
                        cause: GameOverCause::NotEnoughPower,
                        power_generated: final(self).power_generated,
                    },
                ) && final(self).low_power_warning == old(self).low_power_warning)
                &&& (counter <= old(self).config.low_power_fail_ticks ==> final(self).over is None
                    && final(self).low_power_warning == (counter
                    > old(self).config.low_power_warn_ticks))
            }),
    {
        let ghost s0 = *self;
        update_local_reactivity(&mut self.core, &self.config);
        let ghost s1 = *self;
        update_edge_reactivity(&mut self.core, &self.config);
        let ghost s2 = *self;
        update_total_reactivity(&mut self.core, &self.config);
        proof {
            crate::lattice::lemma_same_shape_trans(s0.core, s1.core, s2.core);
            crate::lattice::lemma_same_shape_trans(s0.core, s2.core, self.core);
            crate::reactivity::lemma_chained_reactivity(s0.config, s0.core, s2.core);
        }
        self.power_stage();
    }

    /// The WaterFlow stages: refill the water store, distribute coolant
    /// through the circuits, and reset the steam pull capacity.
    fn run_water_flow(&mut self)
        requires
            old(self).wf(),
            old(self).over is None,
        ensures
            final(self).wf(),
            *final(self) == (Reactor {
                core: final(self).core,
                water_stored: final(self).water_stored,
                ..*old(self)
            }),
            same_shape(old(self).core, final(self).core),
            final(self).water_stored == min_spec(
                sat_add_spec(
                    old(self).water_stored as int,
                    old(self).config.water_created_per_tick as int,
                ),
                old(self).config.max_water_stored as int,
            ),
            forall|i: int|
                0 <= i < old(self).core.n() ==> final(self).core.cells@[i]
                    == crate::coolant::with_steam_pull_capacity(
                    crate::coolant::with_coolant_flow(
                        old(self).core.cells@[i],
                        crate::coolant::coolant_flow_spec(old(self).core, old(self).config, i),
                    ),
                    old(self).config.steam_pull_capacity as int,
                ),
    {
        self.create_water();
        let ghost s1 = *self;
        update_coolant_flow(&mut self.core, &self.config);
        let ghost s2 = *self;
        update_steam_pull_capacity(&mut self.core, &self.config);
        proof {
            crate::lattice::lemma_same_shape_trans(s1.core, s2.core, self.core);
        }
    }

    /// The SteamVenting stages: thermal diffusion, the per-cell
    /// steam/pressure step, the venting sweep into the steam store, and
    /// the overpressure check.
    fn run_steam_venting(&mut self)
        requires
            old(self).wf(),
            old(self).over is None,
        ensures
            final(self).wf(),
            *final(self) == (Reactor {
                core: final(self).core,
                steam_stored: final(self).steam_stored,
                overpressure_warning: final(self).overpressure_warning,
                over: final(self).over,
                ..*old(self)
            }),
            same_shape(old(self).core, final(self).core),
            final(self).core.cells@.len() == old(self).core.cells@.len(),
            forall|i: int|
                0 <= i < old(self).core.n() ==> crate::coolant::steam_step_rel(
                    old(self).config,
                    crate::reactivity::with_temperature(
                        old(self).core.cells@[i],
                        crate::reactivity::temperature_update_spec(
                            old(self).config,
                            old(self).core.cells@[i],
                            crate::reactivity::diffused_ambient(old(self).core, i),
                        ),
                    ),
                    #[trigger] final(self).core.cells@[i],
                ),
            final(self).steam_stored == vented_total(
                old(self).steam_stored as int,
                final(self).core.cells@,
            ),
            (exists|i: int|
                0 <= i < old(self).core.n() && (#[trigger] final(self).core.cells@[i]).pressure
                    > old(self).config.pressure_explosion_level) ==> final(self).over == Some(
                GameOver {
                    cause: GameOverCause::Explosion,
                    power_generated: old(self).power_generated,
                },
            ),
            !(exists|i: int|
                0 <= i < old(self).core.n() && (#[trigger] final(self).core.cells@[i]).pressure
                    > old(self).config.pressure_explosion_level) ==> {
                &&& final(self).over is None
                &&& final(self).overpressure_warning == (exists|i: int|
                    0 <= i < old(self).core.n() && (#[trigger] final(self).core.cells@[i]).pressure
                        > old(self).config.pressure_warn_level)
            },
            final(self).over is Some ==> final(self).over == Some(
                GameOver {
                    cause: GameOverCause::Explosion,
                    power_generated: old(self).power_generated,
                },
            ),
    {
        let ghost s0 = *self;
        update_edge_temperatures(&mut self.core, &self.config);
        let ghost s1 = *self;
        update_temperature(&mut self.core, &self.config);
        let ghost s2 = *self;
        generate_steam(&mut self.core, &self.config);
        proof {
            crate::lattice::lemma_same_shape_trans(s0.core, s1.core, s2.core);
            crate::lattice::lemma_same_shape_trans(s0.core, s2.core, self.core);
            crate::reactivity::lemma_diffused_ambient(s0.core, s1.core);
        }
        self.vent_steam_outputs();
        self.check_overpressure();
    }

    /// Feed one frame's wall-clock delta into the accumulator and run one
    /// tick per whole timestep it now holds: the ticks fired equal the
    /// accumulated time divided by the timestep, and the leftover below
    /// one timestep is retained — no time is discarded or invented.
    /// While the game is paused the caller simply does not call this.
    pub fn advance_frame(&mut self, delta_ms: u64) -> (ticks: u64)
        requires
            old(self).wf(),
            old(self).sim.overstep_ms + delta_ms <= u64::MAX,
        ensures
            final(self).wf(),
            final(self).config == old(self).config,
            final(self).sim.timestep_ms == old(self).sim.timestep_ms,
            ticks == (old(self).sim.overstep_ms + delta_ms) as int / old(self).sim.timestep_ms as int,
            final(self).sim.overstep_ms == (old(self).sim.overstep_ms + delta_ms) as int % old(self).sim.timestep_ms as int,
            old(self).over is Some ==> *final(self) == (Reactor {
                sim: final(self).sim,
                ..*old(self)
            }),
            old(self).over is None && final(self).over is None ==> {
                &&& final(self).ticks_elapsed == min_spec(
                    old(self).ticks_elapsed + ticks,
                    u64::MAX as int,
                )
                &&& final(self).phase == crate::phase::phase_after(old(self).phase, ticks as nat)
            },
    {
        let ghost fed = old(self).sim.overstep_ms + delta_ms;
        let mut sim = self.sim;
        sim.accumulate(delta_ms);
        self.sim = sim;
        let mut fired: u64 = 0;
        while self.sim.overstep_ms >= self.sim.timestep_ms
            invariant
                self.wf(),
                self.config == old(self).config,
                self.sim.timestep_ms == old(self).sim.timestep_ms,
                fed <= u64::MAX,
                fired * self.sim.timestep_ms + self.sim.overstep_ms == fed,
                old(self).over is Some ==> *self == (Reactor { sim: self.sim, ..*old(self) }),
                self.over is None ==> old(self).over is None,
                self.over is None ==> self.ticks_elapsed == min_spec(
                    old(self).ticks_elapsed + fired,
                    u64::MAX as int,
                ),
                self.over is None ==> self.phase == crate::phase::phase_after(
                    old(self).phase,
                    fired as nat,
                ),
            decreases self.sim.overstep_ms,
        {
            proof {
                assert(fired <= fired * self.sim.timestep_ms) by (nonlinear_arith)
                    requires
                        fired >= 0,
                        self.sim.timestep_ms >= 1,
                ;
                assert((fired + 1) * self.sim.timestep_ms == fired * self.sim.timestep_ms
                    + self.sim.timestep_ms) by (nonlinear_arith);
            }
            let mut sim = self.sim;
            let _ = sim.expend();
            self.sim = sim;
            self.tick();
            fired = fired + 1;
        }
        proof {
            vstd::arithmetic::div_mod::lemma_fundamental_div_mod_converse_div(
                fed as int,
                self.sim.timestep_ms as int,
                fired as int,
                self.sim.overstep_ms as int,
            );
            vstd::arithmetic::div_mod::lemma_fundamental_div_mod_converse_mod(
                fed as int,
                self.sim.timestep_ms as int,
                fired as int,
                self.sim.overstep_ms as int,
            );
        }
        fired
    }

    /// Resolve a collision between neutron `idx` and the control rod
    /// guarding cell `cell`: absorbed with probability equal to the rod's
    /// insertion fraction; an absorbed neutron is removed, one that
    /// passes through is unaffected. Collision detection itself is the
    /// caller's geometry; rod hits are checked before fuel hits.
    pub fn collide_with_rod(&mut self, idx: usize, cell: usize) -> (absorbed: bool)
        requires
            old(self).wf(),
            idx < old(self).neutrons@.len(),
            cell < old(self).core.cells@.len(),
        ensures
            final(self).wf(),
            *final(self) == (Reactor { neutrons: final(self).neutrons, ..*old(self) }),
            absorbed ==> final(self).neutrons@ == old(self).neutrons@.remove(idx as int),
            !absorbed ==> final(self).neutrons@ == old(self).neutrons@,
            old(self).core.cells@[cell as int].control_rod == SCALE ==> absorbed,
            old(self).core.cells@[cell as int].control_rod == 0 ==> !absorbed,
    {
        let insertion = self.core.cells[cell].control_rod;
        let draw = random_below(SCALE);
        let r = absorb_at_rod(&mut self.neutrons, idx, insertion, draw);
        proof {
            if r {
                assert forall|k: int|
                    0 <= k < self.neutrons@.len() implies (#[trigger] self.neutrons@[k]).wf() by {
                    assert(self.neutrons@ == old(self).neutrons@.remove(idx as int));
                    if k < idx {
                        assert(old(self).neutrons@[k].wf());
                    } else {
                        assert(self.neutrons@[k] == old(self).neutrons@[k + 1]);
                    }
                }
            }
        }
        r
    }

    /// Resolve a collision between neutron `idx` and the fuel rod of
    /// cell `cell`: ignored at its own origin; fission on Uranium, with
    /// the neutron removed and exactly three emitted at the incoming
    /// angle and a tenth of a turn to either side; burn-off on Xenon,
    /// with the cell reverting to Uranium and nothing emitted.
    pub fn collide_with_fuel(&mut self, idx: usize, cell: usize) -> (outcome: CollisionOutcome)
        requires
            old(self).wf(),
            idx < old(self).neutrons@.len(),
            cell < old(self).core.cells@.len(),
            old(self).neutrons@.len() + 3 <= usize::MAX,
        ensures
            final(self).wf(),
            *final(self) == (Reactor {
                neutrons: final(self).neutrons,
                core: final(self).core,
                ..*old(self)
            }),
            same_shape(old(self).core, final(self).core),
            outcome == CollisionOutcome::Ignored <==> old(self).neutrons@[idx as int].origin == cell,
            outcome == CollisionOutcome::Ignored ==> *final(self) == *old(self),
            outcome == CollisionOutcome::Fission <==> (old(self).neutrons@[idx as int].origin != cell
                && old(self).core.cells@[cell as int].fuel == FuelRod::Uranium),
            outcome == CollisionOutcome::Fission ==> final(self).neutrons@.len() == old(self).neutrons@.len() + 2 && final(self).core == old(self).core,
            outcome == CollisionOutcome::BurnOff <==> (old(self).neutrons@[idx as int].origin != cell
                && old(self).core.cells@[cell as int].fuel == FuelRod::Xenon),
            outcome == CollisionOutcome::BurnOff ==> {
                &&& final(self).neutrons@ == old(self).neutrons@.remove(idx as int)
                &&& final(self).core.cells@ == old(self).core.cells@.update(
                    cell as int,
                    (ReactorCell {
                        fuel: FuelRod::Uranium,
                        ..old(self).core.cells@[cell as int]
                    }),
                )
            },
    {
        let ghost orig = *self;
        proof {
            assert(self.neutrons@[idx as int].wf());
        }
        let lifetime = self.config.neutron_lifetime_ms;
        let outcome = resolve_fuel_hit(&mut self.neutrons, idx, &mut self.core, cell, lifetime);
        proof {
            lemma_same_shape_graph_wf(orig.core, self.core);
            match outcome {
                CollisionOutcome::Ignored => {},
                CollisionOutcome::Fission => {
                    let removed = orig.neutrons@.remove(idx as int);
                    assert forall|k: int| 0 <= k < removed.len() implies (#[trigger] removed[k]).wf()
                        by {
                        if k < idx {
                            assert(orig.neutrons@[k].wf());
                        } else {
                            assert(removed[k] == orig.neutrons@[k + 1]);
                        }
                    }
                    assert forall|k: int|
                        0 <= k < self.neutrons@.len() implies (#[trigger] self.neutrons@[k]).wf() by {
                        let t = TURN as int;
                        vstd::arithmetic::div_mod::lemma_mod_bound(
                            orig.neutrons@[idx as int].angle + t - FISSION_FAN_OFFSET,
                            t,
                        );
                        vstd::arithmetic::div_mod::lemma_mod_bound(
                            orig.neutrons@[idx as int].angle + FISSION_FAN_OFFSET as int,
                            t,
                        );
                        if k < removed.len() {
                            assert(removed[k].wf());
                        }
                    }
                },
                CollisionOutcome::BurnOff => {
                    let removed = orig.neutrons@.remove(idx as int);
                    assert forall|k: int|
                        0 <= k < self.neutrons@.len() implies (#[trigger] self.neutrons@[k]).wf() by {
                        if k < idx {
                            assert(orig.neutrons@[k].wf());
                        } else {
                            assert(removed[k] == orig.neutrons@[k + 1]);
                        }
                    }
                    assert forall|i: int|
                        0 <= i < self.core.n() implies (#[trigger] self.core.cells@[i]).wf(
                        self.config,
                    ) by {
                        assert(orig.core.cells@[i].wf(orig.config));
                    }
                },
            }
        }
        outcome
    }

    /// Note that neutron `idx` has left the play field: an Active neutron
    /// turns Dying and begins its fade-out; one already Dying is
    /// unaffected.
    pub fn neutron_out_of_bounds(&mut self, idx: usize)
        requires
            old(self).wf(),
            idx < old(self).neutrons@.len(),
        ensures
            final(self).wf(),
            *final(self) == (Reactor { neutrons: final(self).neutrons, ..*old(self) }),
            final(self).neutrons@.len() == old(self).neutrons@.len(),
            old(self).neutrons@[idx as int].state == crate::neutron::Neutron::Active ==> final(self).neutrons@ == old(self).neutrons@.update(
                idx as int,
                (NeutronParticle {
                    state: crate::neutron::Neutron::Dying,
                    expiry_ms: old(self).config.neutron_fade_ms,
                    ..old(self).neutrons@[idx as int]
                }),
            ),
            old(self).neutrons@[idx as int].state == crate::neutron::Neutron::Dying ==> final(self).neutrons@ == old(self).neutrons@,
    {
        let fade = self.config.neutron_fade_ms;
        crate::neutron::mark_out_of_bounds(&mut self.neutrons, idx, fade);
        proof {
            assert forall|k: int|
                0 <= k < self.neutrons@.len() implies (#[trigger] self.neutrons@[k]).wf() by {
                assert(old(self).neutrons@[k].wf());
            }
        }
    }
}

impl Reactor {
    /// Number of fuel cells in the lattice.
    pub fn cell_count(&self) -> (n: usize)
        ensures
            n == self.core.cells@.len(),
    {
        self.core.cells.len()
    }

    /// The full state of cell `i`, for display.
    pub fn cell(&self, i: usize) -> (c: ReactorCell)
        requires
            i < self.core.cells@.len(),
        ensures
            c == self.core.cells@[i as int],
    {
        self.core.cells[i]
    }

    /// Cell `i`'s total reactivity.
    pub fn cell_reactivity(&self, i: usize) -> (r: u64)
        requires
            i < self.core.cells@.len(),
        ensures
            r == self.core.cells@[i as int].reactivity,
    {
        self.core.cells[i].reactivity
    }

    /// Cell `i`'s temperature, in milli-degrees Celsius.
    pub fn cell_temperature(&self, i: usize) -> (r: u64)
        requires
            i < self.core.cells@.len(),
        ensures
            r == self.core.cells@[i as int].temperature,
    {
        self.core.cells[i].temperature
    }

    /// Cell `i`'s control-rod insertion fraction.
    pub fn cell_insertion(&self, i: usize) -> (r: u64)
        requires
            i < self.core.cells@.len(),
        ensures
            r == self.core.cells@[i as int].control_rod,
    {
        self.core.cells[i].control_rod
    }

    /// Cell `i`'s pressure.
    pub fn cell_pressure(&self, i: usize) -> (r: u64)
        requires
            i < self.core.cells@.len(),
        ensures
            r == self.core.cells@[i as int].pressure,
    {
        self.core.cells[i].pressure
    }

    /// How many neutrons are currently in flight.
    pub fn neutron_count(&self) -> (n: usize)
        ensures
            n == self.neutrons@.len(),
    {
        self.neutrons.len()
    }

    /// The state of neutron `i`, for display.
    pub fn neutron(&self, i: usize) -> (n: NeutronParticle)
        requires
            i < self.neutrons@.len(),
        ensures
            n == self.neutrons@[i as int],
    {
        self.neutrons[i]
    }

    /// The terminal outcome, once the session has ended.
    pub fn game_over(&self) -> (r: Option<GameOver>)
        ensures
            r == self.over,
    {
        self.over
    }
}

/// Bounded resources: in every well-formed session state — and the tick
/// pipeline keeps every state well-formed — each cell's coolant and steam
/// levels are fractions of the cell volume, together they never exceed
/// it, and the pressure never drops below the nominal baseline.
pub proof fn lemma_bounded_resources(r: Reactor, i: int)
    requires
        r.wf(),
        0 <= i < r.core.n(),
    ensures
        0 <= r.core.cells@[i].coolant_level <= SCALE,
        0 <= r.core.cells@[i].steam_level <= SCALE,
        r.core.cells@[i].coolant_level + r.core.cells@[i].steam_level <= SCALE,
        r.core.cells@[i].pressure >= r.config.nominal_pressure,
{
    assert(r.core.cells@[i].wf(r.config));
}


/// A player or UI command, addressed by stable cell, valve and circuit
/// indices rather than by dynamic lookup.
#[derive(Clone, Copy, Debug, PartialEq, Eq, Structural)]
pub enum Command {
    /// Adjust a cell's control-rod insertion by a signed delta.
    MoveControlRod { cell: usize, delta: i64 },
    /// Start or reverse a rod movement at a cell.
    ClickControlRod { cell: usize },
    /// Toggle a valve between open and closed.
    ToggleValve { valve: usize },
    /// Set a circuit's pump power.
    SetCircuitPower { circuit: usize, power: u64 },
    /// Pour stored water into a cell.
    AddWater { cell: usize },
    /// End the session at the player's request.
    Abandon,
}


/// How one command transforms the session: exactly the effect that the
/// method it dispatches to states in its contract, and the identity for
/// a command naming an index with no entity behind it (a recoverable
/// lookup failure, skipped).
pub open spec fn command_rel(pre: Reactor, cmd: Command, post: Reactor) -> bool {
    match cmd {
        Command::MoveControlRod { cell, delta } => {
            if cell < pre.core.cells@.len() {
                &&& post == (Reactor { core: post.core, ..pre })
                &&& same_shape(pre.core, post.core)
                &&& post.core.cells@ == pre.core.cells@.update(
                    cell as int,
                    (ReactorCell {
                        control_rod: Reactor::adjusted_insertion(
                            pre.core.cells@[cell as int].control_rod as int,
                            delta as int,
                        ) as u64,
                        ..pre.core.cells@[cell as int]
                    }),
                )
            } else {
                post == pre
            }
        },
        Command::ClickControlRod { cell } => {
            if cell < pre.core.cells@.len() {
                &&& post == (Reactor { core: post.core, ..pre })
                &&& same_shape(pre.core, post.core)
                &&& post.core.cells@ == pre.core.cells@.update(
                    cell as int,
                    (ReactorCell {
                        rod_movement: match pre.core.cells@[cell as int].rod_movement {
                            Some(ControlRodMovement::Up) => Some(ControlRodMovement::Down),
                            Some(ControlRodMovement::Down) => Some(ControlRodMovement::Up),
                            None => {
                                if pre.core.cells@[cell as int].control_rod > SCALE / 2 {
                                    Some(ControlRodMovement::Down)
                                } else {
                                    Some(ControlRodMovement::Up)
                                }
                            },
                        },
                        ..pre.core.cells@[cell as int]
                    }),
                )
            } else {
                post == pre
            }
        },
        Command::ToggleValve { valve } => {
            if valve < pre.core.valves@.len() {
                &&& post == (Reactor { core: post.core, ..pre })
                &&& same_shape(pre.core, post.core)
                &&& post.core.cells == pre.core.cells
                &&& post.core.valves@.len() == pre.core.valves@.len()
                &&& forall|v: int|
                    0 <= v < pre.core.valves@.len() && v != valve ==> post.core.valves@[v]
                        == pre.core.valves@[v]
                &&& post.core.valves@[valve as int].is_open == !pre.core.valves@[valve as int].is_open
                &&& post.core.valves@[valve as int].cells@ == pre.core.valves@[valve as int].cells@
            } else {
                post == pre
            }
        },
        Command::SetCircuitPower { circuit, power } => {
            if circuit < pre.core.circuits@.len() {
                &&& post == (Reactor { core: post.core, ..pre })
                &&& same_shape(pre.core, post.core)
                &&& post.core.cells == pre.core.cells
                &&& post.core.valves == pre.core.valves
                &&& post.core.circuits@.len() == pre.core.circuits@.len()
                &&& forall|c: int|
                    0 <= c < pre.core.circuits@.len() && c != circuit ==> post.core.circuits@[c]
                        == pre.core.circuits@[c]
                &&& post.core.circuits@[circuit as int].power == min_spec(power as int, SCALE as int)
                &&& post.core.circuits@[circuit as int].valves@
                    == pre.core.circuits@[circuit as int].valves@
            } else {
                post == pre
            }
        },
        Command::AddWater { cell } => {
            if cell < pre.core.cells@.len() {
                &&& post == (Reactor { core: post.core, water_stored: post.water_stored, ..pre })
                &&& same_shape(pre.core, post.core)
                &&& post.water_stored == pre.water_stored - min_spec(
                    pre.water_stored as int,
                    pre.water_flow.rate as int,
                )
                &&& post.core.cells@ == pre.core.cells@.update(
                    cell as int,
                    (ReactorCell {
                        coolant_level: (pre.core.cells@[cell as int].coolant_level + min_spec(
                            min_spec(pre.water_stored as int, pre.water_flow.rate as int)
                                * pre.config.water_unit as int,
                            SCALE - (pre.core.cells@[cell as int].coolant_level
                                + pre.core.cells@[cell as int].steam_level),
                        )) as u64,
                        ..pre.core.cells@[cell as int]
                    }),
                )
            } else {
                post == pre
            }
        },
        Command::Abandon => {
            if pre.over is Some {
                post == pre
            } else {
                post == (Reactor {
                    over: Some(
                        GameOver {
                            cause: GameOverCause::PlayerAbandoned,
                            power_generated: pre.power_generated,
                        },
                    ),
                    ..pre
                })
            }
        },
    }
}

/// The session reached by draining a command queue, front to back.
pub open spec fn commands_rel(pre: Reactor, cmds: Seq<Command>, post: Reactor) -> bool
    decreases cmds.len(),
{
    if cmds.len() == 0 {
        post == pre
    } else {
        exists|mid: Reactor|
            #[trigger] command_rel(pre, cmds[0], mid) && commands_rel(
                mid,
                cmds.subrange(1, cmds.len() as int),
                post,
            )
    }
}

/// Draining one more command extends the queue relation at the back.
proof fn lemma_commands_rel_snoc(
    pre: Reactor,
    cmds: Seq<Command>,
    mid: Reactor,
    cmd: Command,
    post: Reactor,
)
    requires
        commands_rel(pre, cmds, mid),
        command_rel(mid, cmd, post),
    ensures
        commands_rel(pre, cmds.push(cmd), post),
    decreases cmds.len(),
{
    if cmds.len() == 0 {
        assert(cmds.push(cmd)[0] == cmd);
        assert(cmds.push(cmd).subrange(1, 1) =~= Seq::<Command>::empty());
        assert(command_rel(pre, cmd, post));
        assert(commands_rel(post, cmds.push(cmd).subrange(1, 1), post));
    } else {
        let m1 = choose|m: Reactor|
            #[trigger] command_rel(pre, cmds[0], m) && commands_rel(
                m,
                cmds.subrange(1, cmds.len() as int),
                mid,
            );
        lemma_commands_rel_snoc(m1, cmds.subrange(1, cmds.len() as int), mid, cmd, post);
        assert(cmds.push(cmd).subrange(1, cmds.push(cmd).len() as int) =~= cmds.subrange(
            1,
            cmds.len() as int,
        ).push(cmd));
        assert(cmds.push(cmd)[0] == cmds[0]);
        assert(command_rel(pre, cmds.push(cmd)[0], m1) && commands_rel(
            m1,
            cmds.push(cmd).subrange(1, cmds.push(cmd).len() as int),
            post,
        ));
    }
}


impl Reactor {
    /// Drain a queue of player commands, in order. A command that names
    /// an index with no entity behind it is skipped: a recoverable lookup
    /// failure never aborts the rest of the queue or the session. The
    /// result is the fold of [`command_rel`] over the queue — each
    /// command's exact effect, as the contract of the method it
    /// dispatches to states it.
    pub fn apply_commands(&mut self, commands: &Vec<Command>)
        requires
            old(self).wf(),
        ensures
            final(self).wf(),
            final(self).config == old(self).config,
            final(self).sim == old(self).sim,
            final(self).phase == old(self).phase,
            commands_rel(*old(self), commands@, *final(self)),
    {
        let mut k: usize = 0;
        proof {
            assert(commands@.take(0) =~= Seq::<Command>::empty());
        }
        while k < commands.len()
            invariant
                self.wf(),
                self.config == old(self).config,
                self.sim == old(self).sim,
                self.phase == old(self).phase,
                k <= commands@.len(),
                commands_rel(*old(self), commands@.take(k as int), *self),
            decreases commands@.len() - k,
        {
            let ghost pre_step = *self;
            match commands[k] {
                Command::MoveControlRod { cell, delta } => {
                    if cell < self.core.cells.len() {
                        self.move_control_rod(cell, delta);
                    }
                },
                Command::ClickControlRod { cell } => {
                    if cell < self.core.cells.len() {
                        self.click_control_rod(cell);
                    }
                },
                Command::ToggleValve { valve } => {
                    if valve < self.core.valves.len() {
                        self.toggle_valve(valve);
                    }
                },
                Command::SetCircuitPower { circuit, power } => {
                    if circuit < self.core.circuits.len() {
                        self.set_circuit_power(circuit, power);
                    }
                },
                Command::AddWater { cell } => {
                    if cell < self.core.cells.len() {
                        self.add_water_to_cell(cell);
                    }
                },
                Command::Abandon => {
                    self.abandon();
                },
            }
            proof {
                assert(command_rel(pre_step, commands@[k as int], *self));
                lemma_commands_rel_snoc(
                    *old(self),
                    commands@.take(k as int),
                    pre_step,
                    commands@[k as int],
                    *self,
                );
                assert(commands@.take(k + 1) =~= commands@.take(k as int).push(
                    commands@[k as int],
                ));
            }
            k = k + 1;
        }
        proof {
            assert(commands@.take(commands@.len() as int) =~= commands@);
        }
    }
}

} // verus!
