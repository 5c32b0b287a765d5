//! Coolant, steam and pressure model: per-cell phase change above the
//! pressure-dependent boiling point, steam extraction, coolant
//! replenishment and the pressure-curve recomputation, plus the circuit
//! rule that distributes pump flow evenly across the cells of open valves.

use vstd::prelude::*;
use vstd::arithmetic::power::pow;
use crate::config::SimulationConfig;
use crate::fixed::{
    fp_div, fp_div_spec, fp_mul, fp_mul_spec, min64, min_spec, nth_root, pow_small, sat_add,
    sat_add_spec, SCALE,
};
use crate::lattice::{lemma_same_shape_graph_wf, same_shape, ReactorCell, ReactorCore};

verus! {

/// The raw pressure term is clamped here before the curve is applied; the
/// cap stands far beyond any explosion threshold.
pub const RAW_PRESSURE_CAP: u64 = 1_000_000;

/// The curved pressure excess saturates here, likewise far beyond any
/// explosion threshold.
pub const PRESSURE_EXCESS_CAP: u64 = 1_000_000_000_000;

/// Boiling point of the coolant: 100 degrees, plus 3 degrees for each
/// atmosphere of pressure above one.
pub open spec fn boiling_point_spec(pressure: int) -> int {
    100_000 + (pressure - SCALE) * 3
}

/// Coolant boiled away this tick: thermal energy above the boiling point
/// converts coolant into steam, never more than the cell holds.
pub open spec fn coolant_boiled_spec(cfg: SimulationConfig, c: ReactorCell) -> int {
    let bp = boiling_point_spec(c.pressure as int);
    if c.temperature > bp && c.coolant_level > 0 {
        min_spec(
            fp_div_spec(
                fp_mul_spec(c.temperature - bp, cfg.energy_per_heat_unit as int),
                cfg.energy_required_per_unit as int,
            ),
            c.coolant_level as int,
        )
    } else {
        0
    }
}

/// Coolant level after boiling.
pub open spec fn coolant_after_boil_spec(cfg: SimulationConfig, c: ReactorCell) -> int {
    c.coolant_level - coolant_boiled_spec(cfg, c)
}

/// Steam level after boiling: the boiled coolant expands, clamped so that
/// coolant and steam together never exceed the cell volume.
pub open spec fn steam_after_boil_spec(cfg: SimulationConfig, c: ReactorCell) -> int {
    min_spec(
        sat_add_spec(
            c.steam_level as int,
            fp_mul_spec(coolant_boiled_spec(cfg, c), cfg.steam_expansion_ratio as int),
        ),
        SCALE - coolant_after_boil_spec(cfg, c),
    )
}

/// Steam extracted this tick: bounded by the pull capacity and by the
/// pressure-scaled pull factor, never more than the cell holds.
pub open spec fn steam_output_spec(cfg: SimulationConfig, c: ReactorCell) -> int {
    min_spec(
        steam_after_boil_spec(cfg, c),
        min_spec(
            c.steam_pull_capacity as int,
            fp_mul_spec(
                cfg.steam_pull_factor as int,
                fp_div_spec(c.pressure as int, cfg.nominal_pressure as int),
            ),
        ),
    )
}

/// Steam level after extraction.
pub open spec fn steam_after_vent_spec(cfg: SimulationConfig, c: ReactorCell) -> int {
    steam_after_boil_spec(cfg, c) - steam_output_spec(cfg, c)
}

/// Coolant added this tick: the inflow, clamped to the space the cell has
/// left.
pub open spec fn coolant_added_spec(cfg: SimulationConfig, c: ReactorCell) -> int {
    min_spec(
        c.coolant_flow as int,
        SCALE - (coolant_after_boil_spec(cfg, c) + steam_after_vent_spec(cfg, c)),
    )
}

/// Coolant level at the end of the step.
pub open spec fn coolant_final_spec(cfg: SimulationConfig, c: ReactorCell) -> int {
    coolant_after_boil_spec(cfg, c) + coolant_added_spec(cfg, c)
}

/// The raw pressure term: steam times absolute temperature over the
/// remaining space, scaled, and clamped at [`RAW_PRESSURE_CAP`].
pub open spec fn raw_pressure_spec(cfg: SimulationConfig, c: ReactorCell) -> int {
    let space = if SCALE - coolant_final_spec(cfg, c) >= 10 {
        SCALE - coolant_final_spec(cfg, c)
    } else {
        10
    };
    let tk = sat_add_spec(c.temperature as int, 273_150);
    min_spec(
        fp_mul_spec(
            fp_div_spec(fp_mul_spec(steam_after_vent_spec(cfg, c), tk), space),
            cfg.pressure_scale as int,
        ),
        RAW_PRESSURE_CAP as int,
    )
}

/// The raw term taken to the exponent's numerator and rescaled: the value
/// whose `den`-th root is the curved pressure excess.
pub open spec fn scaled_raw_spec(cfg: SimulationConfig, c: ReactorCell) -> int {
    pow(raw_pressure_spec(cfg, c), cfg.pressure_exponent_num as nat) / pow(
        SCALE as int,
        (cfg.pressure_exponent_num - cfg.pressure_exponent_den) as nat,
    )
}

/// `r` is the curved pressure excess for the scaled raw term `x`: the
/// floor of the `den`-th root of `x`, saturated at
/// [`PRESSURE_EXCESS_CAP`]. Exactly one `r` satisfies this.
pub open spec fn curved_ok(x: int, den: int, r: int) -> bool {
    &&& 0 <= r <= PRESSURE_EXCESS_CAP
    &&& pow(r, den as nat) <= x
    &&& r == PRESSURE_EXCESS_CAP || x < pow(r + 1, den as nat)
}

/// How one steam-generation step transforms a cell: coolant boils into
/// steam, steam is extracted, coolant is replenished, and the pressure is
/// recomputed from the result; everything else stays.
pub open spec fn steam_step_rel(cfg: SimulationConfig, b: ReactorCell, a: ReactorCell) -> bool {
    &&& a.control_rod == b.control_rod
    &&& a.rod_movement == b.rod_movement
    &&& a.local_reactivity == b.local_reactivity
    &&& a.reactivity == b.reactivity
    &&& a.temperature == b.temperature
    &&& a.coolant_flow == b.coolant_flow
    &&& a.steam_pull_capacity == b.steam_pull_capacity
    &&& a.fuel == b.fuel
    &&& a.coolant_level == coolant_final_spec(cfg, b)
    &&& a.steam_level == steam_after_vent_spec(cfg, b)
    &&& a.steam_output == steam_output_spec(cfg, b)
    &&& a.pressure >= cfg.nominal_pressure
    &&& curved_ok(
        scaled_raw_spec(cfg, b),
        cfg.pressure_exponent_den as int,
        a.pressure - cfg.nominal_pressure,
    )
}

/// One cell's steam-generation step.
pub fn cell_steam_step(c: &mut ReactorCell, cfg: &SimulationConfig)
    requires
        old(c).wf(*cfg),
        cfg.wf(),
    ensures
        final(c).wf(*cfg),
        steam_step_rel(*cfg, *old(c), *final(c)),
{
    // Boiling: thermal energy above the boiling point converts coolant.
    let bp: u128 = 100_000u128 + ((c.pressure - SCALE) as u128) * 3;
    let excess: u64 = if (c.temperature as u128) > bp {
        (c.temperature as u128 - bp) as u64
    } else {
        0
    };
    let boiled: u64 = if excess > 0 && c.coolant_level > 0 {
        min64(
            fp_div(fp_mul(excess, cfg.energy_per_heat_unit), cfg.energy_required_per_unit),
            c.coolant_level,
        )
    } else {
        0
    };
    c.coolant_level = c.coolant_level - boiled;
    let expanded = fp_mul(boiled, cfg.steam_expansion_ratio);
    c.steam_level = min64(sat_add(c.steam_level, expanded), SCALE - c.coolant_level);

    // Steam extraction.
    let potential = min64(
        c.steam_pull_capacity,
        fp_mul(cfg.steam_pull_factor, fp_div(c.pressure, cfg.nominal_pressure)),
    );
    let output = min64(c.steam_level, potential);
    c.steam_output = output;
    c.steam_level = c.steam_level - output;

    // Coolant replenishment into the remaining space.
    let space_remaining = SCALE - (c.coolant_level + c.steam_level);
    let added = min64(c.coolant_flow, space_remaining);
    c.coolant_level = c.coolant_level + added;

    // Pressure recomputation through the fractional-exponent curve.
    let available_space = if SCALE - c.coolant_level >= 10 {
        SCALE - c.coolant_level
    } else {
        10
    };
    let tk = sat_add(c.temperature, 273_150);
    let raw = min64(
        fp_mul(fp_div(fp_mul(c.steam_level, tk), available_space), cfg.pressure_scale),
        RAW_PRESSURE_CAP,
    );
    let x: u128 = pow_small(raw, cfg.pressure_exponent_num);
    let divisor: u128 = pow_small(SCALE, cfg.pressure_exponent_num - cfg.pressure_exponent_den);
    proof {
        vstd::arithmetic::power::lemma_pow_positive(
            SCALE as int,
            (cfg.pressure_exponent_num - cfg.pressure_exponent_den) as nat,
        );
    }
    let scaled: u128 = x / divisor;
    let root = nth_root(scaled, cfg.pressure_exponent_den, PRESSURE_EXCESS_CAP);
    c.pressure = cfg.nominal_pressure + root;
}

/// Run the steam-generation step on every cell.
pub fn generate_steam(core: &mut ReactorCore, cfg: &SimulationConfig)
    requires
        old(core).wf(*cfg),
        cfg.wf(),
    ensures
        same_shape(*old(core), *final(core)),
        final(core).wf(*cfg),
        final(core).edges == old(core).edges,
        final(core).valves == old(core).valves,
        final(core).circuits == old(core).circuits,
        forall|i: int|
            0 <= i < old(core).n() ==> steam_step_rel(
                *cfg,
                old(core).cells@[i],
                final(core).cells@[i],
            ),
{
    let ghost orig = *core;
    let n = core.cells.len();
    let mut i: usize = 0;
    while i < n
        invariant
            orig.wf(*cfg),
            cfg.wf(),
            n == orig.cells@.len(),
            i <= n,
            *core == (ReactorCore { cells: core.cells, ..orig }),
            core.cells@.len() == n,
            forall|k: int|
                0 <= k < i ==> steam_step_rel(*cfg, orig.cells@[k], #[trigger] core.cells@[k])
                    && core.cells@[k].wf(*cfg),
            forall|k: int| i <= k < n ==> core.cells@[k] == orig.cells@[k],
        decreases n - i,
    {
        let mut c = core.cells[i];
        proof {
            assert(orig.cells@[i as int].wf(*cfg));
        }
        cell_steam_step(&mut c, cfg);
        core.cells.set(i, c);
        i = i + 1;
    }
    proof {
        lemma_same_shape_graph_wf(orig, *core);
    }
}

/// The number of cells behind open valves in the valve list `vlist`.
pub open spec fn open_cells_in(core: ReactorCore, vlist: Seq<usize>) -> int
    decreases vlist.len(),
{
    if vlist.len() == 0 {
        0
    } else {
        open_cells_in(core, vlist.drop_last()) + if core.valves@[vlist.last() as int].is_open {
            core.valves@[vlist.last() as int].cells@.len() as int
        } else {
            0
        }
    }
}

/// The number of cells currently receiving coolant from circuit `c`.
pub open spec fn circuit_open_cells(core: ReactorCore, c: int) -> int {
    open_cells_in(core, core.circuits@[c].valves@)
}

/// The coolant inflow cell `i` receives: its circuit's pump output,
/// `power * max_pump_flow`, divided evenly over the open cells of the
/// circuit; nothing when the cell's own valve is closed.
pub open spec fn coolant_flow_spec(core: ReactorCore, cfg: SimulationConfig, i: int) -> int {
    let v = core.valve_of@[i] as int;
    if !core.valves@[v].is_open {
        0
    } else {
        let c = core.circuit_of@[v] as int;
        let count = circuit_open_cells(core, c);
        if count <= 0 {
            0
        } else {
            fp_mul_spec(cfg.max_pump_coolant_flow as int, core.circuits@[c].power as int) / count
        }
    }
}

/// Count the open-valve cells of circuit `c`.
fn circuit_open_cell_count(core: &ReactorCore, c: usize) -> (r: u64)
    requires
        core.graph_wf(),
        c < core.circuits@.len(),
    ensures
        r as int == circuit_open_cells(*core, c as int),
{
    let mut total: u64 = 0;
    let mut j: usize = 0;
    let len = core.circuits[c].valves.len();
    while j < len
        invariant
            core.graph_wf(),
            c < core.circuits@.len(),
            len == core.circuits@[c as int].valves@.len(),
            j <= len,
            total as int == open_cells_in(*core, core.circuits@[c as int].valves@.take(j as int)),
            total <= 10_000 * j,
        decreases len - j,
    {
        proof {
            assert(core.circuit_ok(c as int));
            assert(core.circuits@[c as int].valves@.take(j + 1).drop_last()
                =~= core.circuits@[c as int].valves@.take(j as int));
        }
        let vidx = core.circuits[c].valves[j];
        if core.valves[vidx].is_open {
            total = total + core.valves[vidx].cells.len() as u64;
        }
        j = j + 1;
    }
    proof {
        assert(core.circuits@[c as int].valves@.take(len as int) =~= core.circuits@[c as int].valves@);
    }
    total
}

/// The open-cell count reads only the valve table, so it agrees between
/// two cores whose valves agree.
proof fn lemma_open_cells_same_valves(a: ReactorCore, b: ReactorCore, vlist: Seq<usize>)
    requires
        a.valves == b.valves,
    ensures
        open_cells_in(a, vlist) == open_cells_in(b, vlist),
    decreases vlist.len(),
{
    if vlist.len() > 0 {
        lemma_open_cells_same_valves(a, b, vlist.drop_last());
    }
}

/// A cell with only its coolant inflow replaced.
pub open spec fn with_coolant_flow(c: ReactorCell, v: int) -> ReactorCell {
    ReactorCell { coolant_flow: v as u64, ..c }
}

/// Distribute coolant: every cell's inflow becomes its circuit's pump
/// output divided evenly over the circuit's open cells, and zero for
/// cells behind a closed valve.
pub fn update_coolant_flow(core: &mut ReactorCore, cfg: &SimulationConfig)
    requires
        old(core).wf(*cfg),
    ensures
        same_shape(*old(core), *final(core)),
        final(core).wf(*cfg),
        final(core).edges == old(core).edges,
        final(core).valves == old(core).valves,
        final(core).circuits == old(core).circuits,
        forall|i: int|
            0 <= i < old(core).n() ==> final(core).cells@[i] == with_coolant_flow(
                old(core).cells@[i],
                coolant_flow_spec(*old(core), *cfg, i),
            ),
{
    let ghost orig = *core;
    let n = core.cells.len();
    let mut i: usize = 0;
    while i < n
        invariant
            orig.wf(*cfg),
            n == orig.cells@.len(),
            i <= n,
            *core == (ReactorCore { cells: core.cells, ..orig }),
            core.cells@.len() == n,
            core.graph_wf(),
            forall|k: int|
                0 <= k < i ==> core.cells@[k] == with_coolant_flow(
                    orig.cells@[k],
                    coolant_flow_spec(orig, *cfg, k),
                ),
            forall|k: int| i <= k < n ==> core.cells@[k] == orig.cells@[k],
        decreases n - i,
    {
        let v = core.valve_of[i];
        let flow: u64 = if !core.valves[v].is_open {
            0
        } else {
            let cidx = core.circuit_of[v];
            let count = circuit_open_cell_count(core, cidx);
            proof {
                lemma_open_cells_same_valves(*core, orig, core.circuits@[cidx as int].valves@);
            }
            if count == 0 {
                0
            } else {
                fp_mul(cfg.max_pump_coolant_flow, core.circuits[cidx].power) / count
            }
        };
        let c = core.cells[i];
        let mut updated = c;
        updated.coolant_flow = flow;
        core.cells.set(i, updated);
        i = i + 1;
        proof {
            lemma_same_shape_graph_wf(orig, *core);
        }
    }
    proof {
        lemma_same_shape_graph_wf(orig, *core);
    }
}

/// A cell with only its steam pull capacity replaced.
pub open spec fn with_steam_pull_capacity(c: ReactorCell, v: int) -> ReactorCell {
    ReactorCell { steam_pull_capacity: v as u64, ..c }
}

/// Reset every cell's steam pull capacity to the configured value.
pub fn update_steam_pull_capacity(core: &mut ReactorCore, cfg: &SimulationConfig)
    requires
        old(core).wf(*cfg),
    ensures
        same_shape(*old(core), *final(core)),
        final(core).wf(*cfg),
        final(core).edges == old(core).edges,
        final(core).valves == old(core).valves,
        final(core).circuits == old(core).circuits,
        forall|i: int|
            0 <= i < old(core).n() ==> final(core).cells@[i] == with_steam_pull_capacity(
                old(core).cells@[i],
                cfg.steam_pull_capacity as int,
            ),
{
    let ghost orig = *core;
    let n = core.cells.len();
    let mut i: usize = 0;
    while i < n
        invariant
            orig.wf(*cfg),
            n == orig.cells@.len(),
            i <= n,
            *core == (ReactorCore { cells: core.cells, ..orig }),
            core.cells@.len() == n,
            forall|k: int|
                0 <= k < i ==> core.cells@[k] == with_steam_pull_capacity(
                    orig.cells@[k],
                    cfg.steam_pull_capacity as int,
                ),
            forall|k: int| i <= k < n ==> core.cells@[k] == orig.cells@[k],
        decreases n - i,
    {
        let c = core.cells[i];
        let mut updated = c;
        updated.steam_pull_capacity = cfg.steam_pull_capacity;
        core.cells.set(i, updated);
        i = i + 1;
    }
    proof {
        lemma_same_shape_graph_wf(orig, *core);
    }
}

} // verus!
