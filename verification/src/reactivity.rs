//! Reactivity and thermal model: per-tick recomputation of local
//! reactivity from rod insertion and coolant voiding, one-step diffusion of
//! reactivity and temperature across edges, and the explicit-Euler cell
//! temperature update. Diffusion never spreads more than one hop per tick;
//! multi-hop spread emerges only over multiple ticks.

use vstd::prelude::*;
use crate::config::SimulationConfig;
use crate::fixed::{fp_mul, fp_mul_spec, sat_add, sat_add_spec, sat64, SCALE};
use crate::lattice::{
    diag, lemma_same_shape_graph_wf, same_shape, Position, ReactorCell, ReactorCore, ReactorEdge,
};

verus! {

/// Local (pre-diffusion) reactivity of a cell:
/// `base * (1 - rod_insertion) * (1 + void_boost * (1 - coolant_level))`.
/// Control rods suppress; low coolant (voiding) boosts.
pub open spec fn local_reactivity_spec(cfg: SimulationConfig, c: ReactorCell) -> int {
    fp_mul_spec(
        fp_mul_spec(cfg.base_reactivity as int, SCALE - c.control_rod),
        sat_add_spec(
            SCALE as int,
            fp_mul_spec(cfg.void_reactivity_boost as int, SCALE - c.coolant_level),
        ),
    )
}

/// Reactivity floor: a cell whose control rod is fully inserted has local
/// reactivity exactly zero, regardless of its coolant level.
pub proof fn lemma_reactivity_floor(cfg: SimulationConfig, c: ReactorCell)
    requires
        c.control_rod == SCALE,
    ensures
        local_reactivity_spec(cfg, c) == 0,
{
    vstd::arithmetic::div_mod::lemma_div_of0(SCALE as int);
    assert(cfg.base_reactivity as int * 0 == 0) by (nonlinear_arith);
    assert(fp_mul_spec(cfg.base_reactivity as int, 0) == 0);
    let t2 = sat_add_spec(
        SCALE as int,
        fp_mul_spec(cfg.void_reactivity_boost as int, SCALE - c.coolant_level),
    );
    assert(0 * t2 == 0) by (nonlinear_arith);
}

/// A cell with only its local reactivity replaced.
pub open spec fn with_local_reactivity(c: ReactorCell, v: int) -> ReactorCell {
    ReactorCell { local_reactivity: v as u64, ..c }
}

/// Recompute every cell's local reactivity from its rod insertion and
/// coolant level.
pub fn update_local_reactivity(core: &mut ReactorCore, cfg: &SimulationConfig)
    requires
        old(core).wf(*cfg),
    ensures
        same_shape(*old(core), *final(core)),
        final(core).wf(*cfg),
        final(core).edges == old(core).edges,
        final(core).valves == old(core).valves,
        final(core).circuits == old(core).circuits,
        forall|i: int|
            0 <= i < old(core).n() ==> final(core).cells@[i] == with_local_reactivity(
                old(core).cells@[i],
                local_reactivity_spec(*cfg, old(core).cells@[i]),
            ),
{
    let ghost orig = *core;
    let n = core.cells.len();
    let mut i: usize = 0;
    while i < n
        invariant
            orig.wf(*cfg),
            n == orig.cells@.len(),
            i <= n,
            *core == (ReactorCore { cells: core.cells, ..orig }),
            core.cells@.len() == n,
            forall|k: int|
                0 <= k < i ==> core.cells@[k] == with_local_reactivity(
                    orig.cells@[k],
                    local_reactivity_spec(*cfg, orig.cells@[k]),
                ),
            forall|k: int| i <= k < n ==> core.cells@[k] == orig.cells@[k],
        decreases n - i,
    {
        let c = core.cells[i];
        let t1 = fp_mul(cfg.base_reactivity, SCALE - c.control_rod);
        let t2 = sat_add(
            SCALE,
            fp_mul(cfg.void_reactivity_boost, SCALE - c.coolant_level),
        );
        let v = fp_mul(t1, t2);
        let mut updated = c;
        updated.local_reactivity = v;
        core.cells.set(i, updated);
        i = i + 1;
    }
    proof {
        lemma_same_shape_graph_wf(orig, *core);
    }
}

/// An edge with only its reactivity replaced.
pub open spec fn with_edge_reactivity(e: ReactorEdge, v: int) -> ReactorEdge {
    ReactorEdge { reactivity: v as u64, ..e }
}

/// An edge with only its temperature replaced.
pub open spec fn with_edge_temperature(e: ReactorEdge, v: int) -> ReactorEdge {
    ReactorEdge { temperature: v as u64, ..e }
}

/// Diffusion averaging: recompute every edge's reactivity as the exact
/// arithmetic mean of its two endpoint cells' local reactivity.
pub fn update_edge_reactivity(core: &mut ReactorCore, cfg: &SimulationConfig)
    requires
        old(core).wf(*cfg),
    ensures
        same_shape(*old(core), *final(core)),
        final(core).wf(*cfg),
        final(core).cells == old(core).cells,
        final(core).valves == old(core).valves,
        final(core).circuits == old(core).circuits,
        forall|e: int|
            0 <= e < old(core).edges@.len() ==> final(core).edges@[e] == with_edge_reactivity(
                old(core).edges@[e],
                (old(core).cells@[old(core).edges@[e].a as int].local_reactivity
                    + old(core).cells@[old(core).edges@[e].b as int].local_reactivity) / 2,
            ),
{
    let ghost orig = *core;
    let m = core.edges.len();
    let mut e: usize = 0;
    while e < m
        invariant
            orig.wf(*cfg),
            m == orig.edges@.len(),
            e <= m,
            *core == (ReactorCore { edges: core.edges, ..orig }),
            core.edges@.len() == m,
            forall|k: int|
                0 <= k < e ==> core.edges@[k] == with_edge_reactivity(
                    orig.edges@[k],
                    (orig.cells@[orig.edges@[k].a as int].local_reactivity
                        + orig.cells@[orig.edges@[k].b as int].local_reactivity) / 2,
                ),
            forall|k: int| e <= k < m ==> core.edges@[k] == orig.edges@[k],
        decreases m - e,
    {
        let ed = core.edges[e];
        proof {
            assert(orig.edge_ok(orig.edges@[e as int]));
        }
        let a = core.cells[ed.a].local_reactivity;
        let b = core.cells[ed.b].local_reactivity;
        let mean = (((a as u128) + (b as u128)) / 2) as u64;
        let mut updated = ed;
        updated.reactivity = mean;
        core.edges.set(e, updated);
        e = e + 1;
    }
    proof {
        lemma_same_shape_graph_wf(orig, *core);
    }
}

/// Diffusion averaging for temperature: every edge's temperature becomes
/// the exact mean of its endpoints' temperatures.
pub fn update_edge_temperatures(core: &mut ReactorCore, cfg: &SimulationConfig)
    requires
        old(core).wf(*cfg),
    ensures
        same_shape(*old(core), *final(core)),
        final(core).wf(*cfg),
        final(core).cells == old(core).cells,
        final(core).valves == old(core).valves,
        final(core).circuits == old(core).circuits,
        forall|e: int|
            0 <= e < old(core).edges@.len() ==> final(core).edges@[e] == with_edge_temperature(
                old(core).edges@[e],
                (old(core).cells@[old(core).edges@[e].a as int].temperature
                    + old(core).cells@[old(core).edges@[e].b as int].temperature) / 2,
            ),
{
    let ghost orig = *core;
    let m = core.edges.len();
    let mut e: usize = 0;
    while e < m
        invariant
            orig.wf(*cfg),
            m == orig.edges@.len(),
            e <= m,
            *core == (ReactorCore { edges: core.edges, ..orig }),
            core.edges@.len() == m,
            forall|k: int|
                0 <= k < e ==> core.edges@[k] == with_edge_temperature(
                    orig.edges@[k],
                    (orig.cells@[orig.edges@[k].a as int].temperature
                        + orig.cells@[orig.edges@[k].b as int].temperature) / 2,
                ),
            forall|k: int| e <= k < m ==> core.edges@[k] == orig.edges@[k],
        decreases m - e,
    {
        let ed = core.edges[e];
        proof {
            assert(orig.edge_ok(orig.edges@[e as int]));
        }
        let a = core.cells[ed.a].temperature;
        let b = core.cells[ed.b].temperature;
        let mean = (((a as u128) + (b as u128)) / 2) as u64;
        let mut updated = ed;
        updated.temperature = mean;
        core.edges.set(e, updated);
        e = e + 1;
    }
    proof {
        lemma_same_shape_graph_wf(orig, *core);
    }
}

/// The reactivity an incident edge contributes to the cell at `p` in the
/// direction (`dx`, `dy`): the edge's value, or zero when no neighbour is
/// present there.
pub open spec fn neighbor_reactivity(core: ReactorCore, p: Position, dx: int, dy: int) -> int {
    core.edge_reactivity_between(p, diag(p, dx, dy))
}

/// Sum of the four incident edges' reactivity, saturating.
pub open spec fn neighbor_reactivity_sum(core: ReactorCore, i: int) -> int {
    let p = core.positions@[i];
    sat_add_spec(
        sat_add_spec(
            sat_add_spec(
                neighbor_reactivity(core, p, -1, -1),
                neighbor_reactivity(core, p, -1, 1),
            ),
            neighbor_reactivity(core, p, 1, -1),
        ),
        neighbor_reactivity(core, p, 1, 1),
    )
}

/// Total (diffused) reactivity of cell `i`:
/// `local + neighbor_coupling * (sum of incident edge reactivities)`,
/// missing neighbours contributing zero.
pub open spec fn total_reactivity_spec(cfg: SimulationConfig, core: ReactorCore, i: int) -> int {
    sat_add_spec(
        core.cells@[i].local_reactivity as int,
        fp_mul_spec(
            cfg.reactivity_neighbor_coupling_factor as int,
            neighbor_reactivity_sum(core, i),
        ),
    )
}

/// A cell with only its total reactivity replaced.
pub open spec fn with_reactivity(c: ReactorCell, v: int) -> ReactorCell {
    ReactorCell { reactivity: v as u64, ..c }
}

/// The reactivity of the edge joining `p` and `q`, or zero when absent.
fn edge_reactivity_lookup(core: &ReactorCore, p: Position, q: Position) -> (r: u64)
    requires
        core.graph_wf(),
    ensures
        r as int == core.edge_reactivity_between(p, q),
{
    match core.find_edge(p, q) {
        Some(e) => {
            proof {
                core.lemma_edge_unique(e as int, p, q);
            }
            core.edges[e].reactivity
        },
        None => {
            proof {
                if core.has_edge_between(p, q) {
                    let idx = core.edge_index_between(p, q);
                    assert(core.edge_connects(core.edges@[idx], p, q));
                }
            }
            0
        },
    }
}

/// The temperature of the edge joining `p` and `q`, or the ambient
/// default when absent.
fn edge_temperature_lookup(core: &ReactorCore, p: Position, q: Position, default: u64) -> (r: u64)
    requires
        core.graph_wf(),
    ensures
        r as int == core.edge_temperature_between(p, q, default as int),
{
    match core.find_edge(p, q) {
        Some(e) => {
            proof {
                core.lemma_edge_unique(e as int, p, q);
            }
            core.edges[e].temperature
        },
        None => {
            proof {
                if core.has_edge_between(p, q) {
                    let idx = core.edge_index_between(p, q);
                    assert(core.edge_connects(core.edges@[idx], p, q));
                }
            }
            default
        },
    }
}

/// Recompute every cell's total reactivity from its local reactivity and
/// its incident edges.
pub fn update_total_reactivity(core: &mut ReactorCore, cfg: &SimulationConfig)
    requires
        old(core).wf(*cfg),
    ensures
        same_shape(*old(core), *final(core)),
        final(core).wf(*cfg),
        final(core).edges == old(core).edges,
        final(core).valves == old(core).valves,
        final(core).circuits == old(core).circuits,
        forall|i: int|
            0 <= i < old(core).n() ==> final(core).cells@[i] == with_reactivity(
                old(core).cells@[i],
                total_reactivity_spec(*cfg, *old(core), i),
            ),
{
    let ghost orig = *core;
    let n = core.cells.len();
    let mut i: usize = 0;
    while i < n
        invariant
            orig.wf(*cfg),
            n == orig.cells@.len(),
            n == orig.positions@.len(),
            i <= n,
            *core == (ReactorCore { cells: core.cells, ..orig }),
            core.cells@.len() == n,
            core.graph_wf(),
            forall|k: int|
                0 <= k < i ==> core.cells@[k] == with_reactivity(
                    orig.cells@[k],
                    total_reactivity_spec(*cfg, orig, k),
                ),
            forall|k: int| i <= k < n ==> core.cells@[k] == orig.cells@[k],
        decreases n - i,
    {
        let p = core.positions[i];
        let nb = p.neighbours();
        let r0 = edge_reactivity_lookup(core, p, nb[0]);
        let r1 = edge_reactivity_lookup(core, p, nb[1]);
        let r2 = edge_reactivity_lookup(core, p, nb[2]);
        let r3 = edge_reactivity_lookup(core, p, nb[3]);
        let sum = sat_add(sat_add(sat_add(r0, r1), r2), r3);
        let c = core.cells[i];
        let v = sat_add(
            c.local_reactivity,
            fp_mul(cfg.reactivity_neighbor_coupling_factor, sum),
        );
        proof {
            assert(nb@[0] == diag(p, -1, -1));
            assert(nb@[1] == diag(p, -1, 1));
            assert(nb@[2] == diag(p, 1, -1));
            assert(nb@[3] == diag(p, 1, 1));
        }
        let mut updated = c;
        updated.reactivity = v;
        core.cells.set(i, updated);
        i = i + 1;
        proof {
            lemma_same_shape_graph_wf(orig, *core);
        }
    }
    proof {
        lemma_same_shape_graph_wf(orig, *core);
    }
}

/// The ambient temperature a cell relaxes toward: the mean of its four
/// incident edge temperatures, a missing neighbour counting as 25 degrees.
pub open spec fn ambient_spec(core: ReactorCore, i: int) -> int {
    let p = core.positions@[i];
    (core.edge_temperature_between(p, diag(p, -1, -1), 25_000)
        + core.edge_temperature_between(p, diag(p, -1, 1), 25_000)
        + core.edge_temperature_between(p, diag(p, 1, -1), 25_000)
        + core.edge_temperature_between(p, diag(p, 1, 1), 25_000)) / 4
}

/// A relaxation term toward `target` at the given fixed-point rate:
/// positive when the cell is hotter than the target (a loss), negative
/// when cooler (a gain).
pub open spec fn relaxation(rate: int, current: int, target: int) -> int {
    if current >= target {
        fp_mul_spec(rate, current - target)
    } else {
        -fp_mul_spec(rate, target - current)
    }
}

/// The explicit-Euler temperature update of one cell:
/// `temperature + reactivity * heat_factor
///  - coolant_flow * efficiency * (temperature - coolant_temperature)
///  - decay_rate * (temperature - ambient)`, floored at zero.
pub open spec fn temperature_update_spec(cfg: SimulationConfig, c: ReactorCell, ambient: int) -> int {
    sat64(
        c.temperature + fp_mul_spec(c.reactivity as int, cfg.heat_generation_factor as int)
            - relaxation(
            fp_mul_spec(c.coolant_flow as int, cfg.coolant_efficiency as int),
            c.temperature as int,
            cfg.coolant_temperature as int,
        ) - relaxation(
            cfg.temperature_passive_decay_rate as int,
            c.temperature as int,
            ambient,
        ),
    )
}

/// A cell with only its temperature replaced.
pub open spec fn with_temperature(c: ReactorCell, v: int) -> ReactorCell {
    ReactorCell { temperature: v as u64, ..c }
}

/// Advance every cell's temperature by one explicit-Euler step: heat from
/// reactivity, cooling toward the incoming coolant temperature, passive
/// decay toward the neighbourhood ambient.
pub fn update_temperature(core: &mut ReactorCore, cfg: &SimulationConfig)
    requires
        old(core).wf(*cfg),
    ensures
        same_shape(*old(core), *final(core)),
        final(core).wf(*cfg),
        final(core).edges == old(core).edges,
        final(core).valves == old(core).valves,
        final(core).circuits == old(core).circuits,
        forall|i: int|
            0 <= i < old(core).n() ==> final(core).cells@[i] == with_temperature(
                old(core).cells@[i],
                temperature_update_spec(*cfg, old(core).cells@[i], ambient_spec(*old(core), i)),
            ),
{
    let ghost orig = *core;
    let n = core.cells.len();
    let mut i: usize = 0;
    while i < n
        invariant
            orig.wf(*cfg),
            n == orig.cells@.len(),
            n == orig.positions@.len(),
            i <= n,
            *core == (ReactorCore { cells: core.cells, ..orig }),
            core.cells@.len() == n,
            core.graph_wf(),
            forall|k: int|
                0 <= k < i ==> core.cells@[k] == with_temperature(
                    orig.cells@[k],
                    temperature_update_spec(*cfg, orig.cells@[k], ambient_spec(orig, k)),
                ),
            forall|k: int| i <= k < n ==> core.cells@[k] == orig.cells@[k],
        decreases n - i,
    {
        let p = core.positions[i];
        let nb = p.neighbours();
        let t0 = edge_temperature_lookup(core, p, nb[0], 25_000);
        let t1 = edge_temperature_lookup(core, p, nb[1], 25_000);
        let t2 = edge_temperature_lookup(core, p, nb[2], 25_000);
        let t3 = edge_temperature_lookup(core, p, nb[3], 25_000);
        let ambient_wide: u128 = ((t0 as u128) + (t1 as u128) + (t2 as u128) + (t3 as u128)) / 4;
        let ambient: u64 = ambient_wide as u64;
        proof {
            assert(nb@[0] == diag(p, -1, -1));
            assert(nb@[1] == diag(p, -1, 1));
            assert(nb@[2] == diag(p, 1, -1));
            assert(nb@[3] == diag(p, 1, 1));
            assert(ambient as int == ambient_spec(orig, i as int));
        }
        let c = core.cells[i];
        let gain = fp_mul(c.reactivity, cfg.heat_generation_factor);
        let rate1 = fp_mul(c.coolant_flow, cfg.coolant_efficiency);
        let loss1_toward: bool = c.temperature >= cfg.coolant_temperature;
        let l1 = if loss1_toward {
            fp_mul(rate1, c.temperature - cfg.coolant_temperature)
        } else {
            fp_mul(rate1, cfg.coolant_temperature - c.temperature)
        };
        let loss2_toward: bool = c.temperature >= ambient;
        let l2 = if loss2_toward {
            fp_mul(cfg.temperature_passive_decay_rate, c.temperature - ambient)
        } else {
            fp_mul(cfg.temperature_passive_decay_rate, ambient - c.temperature)
        };
        let mut up: u128 = (c.temperature as u128) + (gain as u128);
        let mut down: u128 = 0;
        if loss1_toward {
            down = down + (l1 as u128);
        } else {
            up = up + (l1 as u128);
        }
        if loss2_toward {
            down = down + (l2 as u128);
        } else {
            up = up + (l2 as u128);
        }
        let new_temp: u64 = if up > down {
            let d = up - down;
            if d > u64::MAX as u128 {
                u64::MAX
            } else {
                d as u64
            }
        } else {
            0
        };
        let mut updated = c;
        updated.temperature = new_temp;
        core.cells.set(i, updated);
        i = i + 1;
        proof {
            lemma_same_shape_graph_wf(orig, *core);
        }
    }
    proof {
        lemma_same_shape_graph_wf(orig, *core);
    }
}


/// The reactivity an edge carries after the diffusion averaging, read
/// directly off the endpoint cells' freshly computed local reactivity; a
/// missing neighbour contributes zero.
pub open spec fn diffused_edge_reactivity(
    cfg: SimulationConfig,
    core: ReactorCore,
    p: Position,
    q: Position,
) -> int {
    if core.has_edge_between(p, q) {
        let e = core.edges@[core.edge_index_between(p, q)];
        (local_reactivity_spec(cfg, core.cells@[e.a as int]) + local_reactivity_spec(
            cfg,
            core.cells@[e.b as int],
        )) / 2
    } else {
        0
    }
}

/// Total reactivity of cell `i` after one whole reactivity chain (local
/// recomputation, edge averaging, neighbour coupling), as a function of
/// the tick's starting state alone.
pub open spec fn chained_reactivity(cfg: SimulationConfig, core: ReactorCore, i: int) -> int {
    let p = core.positions@[i];
    sat_add_spec(
        local_reactivity_spec(cfg, core.cells@[i]),
        fp_mul_spec(
            cfg.reactivity_neighbor_coupling_factor as int,
            sat_add_spec(
                sat_add_spec(
                    sat_add_spec(
                        diffused_edge_reactivity(cfg, core, p, diag(p, -1, -1)),
                        diffused_edge_reactivity(cfg, core, p, diag(p, -1, 1)),
                    ),
                    diffused_edge_reactivity(cfg, core, p, diag(p, 1, -1)),
                ),
                diffused_edge_reactivity(cfg, core, p, diag(p, 1, 1)),
            ),
        ),
    )
}

/// The temperature an edge carries after the diffusion averaging, read
/// directly off the endpoint cells; a missing neighbour counts as the
/// default.
pub open spec fn diffused_edge_temperature(
    core: ReactorCore,
    p: Position,
    q: Position,
    default: int,
) -> int {
    if core.has_edge_between(p, q) {
        let e = core.edges@[core.edge_index_between(p, q)];
        (core.cells@[e.a as int].temperature + core.cells@[e.b as int].temperature) / 2
    } else {
        default
    }
}

/// The ambient temperature cell `i` relaxes toward after the edge
/// averaging, as a function of the tick's starting state alone.
pub open spec fn diffused_ambient(core: ReactorCore, i: int) -> int {
    let p = core.positions@[i];
    (diffused_edge_temperature(core, p, diag(p, -1, -1), 25_000) + diffused_edge_temperature(
        core,
        p,
        diag(p, -1, 1),
        25_000,
    ) + diffused_edge_temperature(core, p, diag(p, 1, -1), 25_000) + diffused_edge_temperature(
        core,
        p,
        diag(p, 1, 1),
        25_000,
    )) / 4
}

/// After the local recomputation and the edge averaging, the total
/// reactivity each cell is about to receive equals [`chained_reactivity`]
/// of the starting state.
pub proof fn lemma_chained_reactivity(cfg: SimulationConfig, orig: ReactorCore, mid: ReactorCore)
    requires
        orig.graph_wf(),
        mid.graph_wf(),
        mid.positions@ == orig.positions@,
        mid.cells@.len() == orig.cells@.len(),
        mid.edges@.len() == orig.edges@.len(),
        forall|e: int|
            0 <= e < orig.edges@.len() ==> (#[trigger] mid.edges@[e]).a == orig.edges@[e].a
                && mid.edges@[e].b == orig.edges@[e].b,
        forall|e: int|
            0 <= e < orig.edges@.len() ==> (#[trigger] mid.edges@[e]).reactivity as int == (
            local_reactivity_spec(cfg, orig.cells@[orig.edges@[e].a as int])
                + local_reactivity_spec(cfg, orig.cells@[orig.edges@[e].b as int])) / 2,
        forall|i: int|
            0 <= i < orig.cells@.len() ==> (#[trigger] mid.cells@[i]).local_reactivity as int
                == local_reactivity_spec(cfg, orig.cells@[i]),
    ensures
        forall|i: int|
            0 <= i < orig.n() ==> total_reactivity_spec(cfg, mid, i) == #[trigger] chained_reactivity(
                cfg,
                orig,
                i,
            ),
{
    assert forall|i: int|
        0 <= i < orig.n() implies total_reactivity_spec(cfg, mid, i) == #[trigger] chained_reactivity(
        cfg,
        orig,
        i,
    ) by {
        let p = orig.positions@[i];
        assert forall|dx: int, dy: int|
            true implies #[trigger] mid.edge_reactivity_between(p, diag(p, dx, dy))
                == diffused_edge_reactivity(cfg, orig, p, diag(p, dx, dy)) by {
            let q = diag(p, dx, dy);
            crate::lattice::lemma_edge_lookup_transfer(orig, mid, p, q);
            if orig.has_edge_between(p, q) {
                let e = orig.edge_index_between(p, q);
                assert(crate::lattice::connects_pair(orig.edges@[e], orig.positions@, p, q));
            }
        }
    }
}

/// After the edge temperature averaging, the ambient each cell is about
/// to relax toward equals [`diffused_ambient`] of the starting state.
pub proof fn lemma_diffused_ambient(orig: ReactorCore, mid: ReactorCore)
    requires
        orig.graph_wf(),
        mid.graph_wf(),
        mid.positions@ == orig.positions@,
        mid.cells@.len() == orig.cells@.len(),
        mid.edges@.len() == orig.edges@.len(),
        forall|e: int|
            0 <= e < orig.edges@.len() ==> (#[trigger] mid.edges@[e]).a == orig.edges@[e].a
                && mid.edges@[e].b == orig.edges@[e].b,
        forall|e: int|
            0 <= e < orig.edges@.len() ==> (#[trigger] mid.edges@[e]).temperature as int == (
            orig.cells@[orig.edges@[e].a as int].temperature
                + orig.cells@[orig.edges@[e].b as int].temperature) / 2,
    ensures
        forall|i: int|
            0 <= i < orig.n() ==> ambient_spec(mid, i) == #[trigger] diffused_ambient(orig, i),
{
    assert forall|i: int|
        0 <= i < orig.n() implies ambient_spec(mid, i) == #[trigger] diffused_ambient(orig, i) by {
        let p = orig.positions@[i];
        assert forall|dx: int, dy: int|
            true implies #[trigger] mid.edge_temperature_between(p, diag(p, dx, dy), 25_000)
                == diffused_edge_temperature(orig, p, diag(p, dx, dy), 25_000) by {
            let q = diag(p, dx, dy);
            crate::lattice::lemma_edge_lookup_transfer(orig, mid, p, q);
            if orig.has_edge_between(p, q) {
                let e = orig.edge_index_between(p, q);
                assert(crate::lattice::connects_pair(orig.edges@[e], orig.positions@, p, q));
            }
        }
    }
}

} // verus!
