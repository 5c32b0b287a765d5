//! Lattice construction: enumerate the centered grid, keep the valid-parity
//! fuel-cell sites, partition them into valves and circuits, and create one
//! coupling edge per unordered pair of adjacent sites. Built once when a
//! session starts; a partition that does not divide the cell list evenly is
//! a construction-time error and the session cannot start.

use vstd::prelude::*;
use vstd::arithmetic::div_mod::{
    lemma_fundamental_div_mod_converse_div, lemma_fundamental_div_mod_converse_mod,
};
use crate::config::SimulationConfig;
use crate::fixed::SCALE;
use crate::lattice::{
    adjacent, connects_pair, default_cell, distinct_pairs, pair_connected, BuildError,
    CoolantCircuit, CoolantValve, Position, ReactorCell, ReactorCore, ReactorEdge,
};

verus! {

/// Position `k` of the centered `rows x columns` grid, row-major.
pub open spec fn grid_position(rows: int, columns: int, k: int) -> Position {
    Position {
        x: (k % columns - columns / 2) as i32,
        y: (k / columns - rows / 2) as i32,
    }
}

/// All positions of the centered grid, in enumeration order.
pub open spec fn grid_seq(rows: int, columns: int) -> Seq<Position> {
    Seq::new((rows * columns) as nat, |k: int| grid_position(rows, columns, k))
}

/// The valid-parity (fuel-cell) positions of `s`, in order.
pub open spec fn valid_of(s: Seq<Position>) -> Seq<Position>
    decreases s.len(),
{
    if s.len() == 0 {
        Seq::empty()
    } else if s.last().is_valid_spec() {
        valid_of(s.drop_last()).push(s.last())
    } else {
        valid_of(s.drop_last())
    }
}

/// Every position the grid enumeration yields stays within the coordinate
/// bounds that the lattice invariant asks for.
proof fn lemma_grid_position_bounds(rows: int, columns: int, k: int)
    requires
        1 <= columns <= 100,
        rows <= 100,
        0 <= k < rows * columns,
    ensures
        -100 <= grid_position(rows, columns, k).x <= 100,
        -100 <= grid_position(rows, columns, k).y <= 100,
{
    vstd::arithmetic::div_mod::lemma_mod_bound(k, columns);
    assert(k / columns < rows) by {
        if k / columns >= rows {
            assert(columns * (k / columns) >= columns * rows) by (nonlinear_arith)
                requires
                    k / columns >= rows,
                    columns >= 1,
            ;
            vstd::arithmetic::div_mod::lemma_fundamental_div_mod(k, columns);
            vstd::arithmetic::div_mod::lemma_mod_bound(k, columns);
            assert(columns * rows == rows * columns) by (nonlinear_arith);
        }
    }
    assert(k / columns >= 0) by {
        vstd::arithmetic::div_mod::lemma_div_pos_is_pos(k, columns);
    }
}

/// The centered grid positions, row-major: the full enumeration the
/// builder filters for fuel-cell sites.
pub fn grid_positions(rows: usize, columns: usize) -> (r: Vec<Position>)
    requires
        rows <= 100,
        columns <= 100,
    ensures
        r@ == grid_seq(rows as int, columns as int),
        r@.len() == rows * columns,
{
    let mut out: Vec<Position> = Vec::new();
    let x0: i32 = 0i32 - (columns / 2) as i32;
    let y0: i32 = 0i32 - (rows / 2) as i32;
    let mut yi: usize = 0;
    while yi < rows
        invariant
            rows <= 100,
            columns <= 100,
            x0 == -((columns as int) / 2),
            y0 == -((rows as int) / 2),
            yi <= rows,
            out@.len() == yi * columns,
            forall|k: int|
                0 <= k < out@.len() ==> out@[k] == grid_position(rows as int, columns as int, k),
        decreases rows - yi,
    {
        let mut xi: usize = 0;
        while xi < columns
            invariant
                rows <= 100,
                columns <= 100,
                x0 == -((columns as int) / 2),
                y0 == -((rows as int) / 2),
                yi < rows,
                xi <= columns,
                out@.len() == yi * columns + xi,
                forall|k: int|
                    0 <= k < out@.len() ==> out@[k] == grid_position(rows as int, columns as int, k),
            decreases columns - xi,
        {
            let p = Position::new(x0 + xi as i32, y0 + yi as i32);
            proof {
                let k = yi * columns + xi;
                lemma_fundamental_div_mod_converse_div(k as int, columns as int, yi as int, xi as int);
                lemma_fundamental_div_mod_converse_mod(k as int, columns as int, yi as int, xi as int);
            }
            out.push(p);
            xi = xi + 1;
        }
        yi = yi + 1;
        proof {
            assert((yi - 1) * columns + columns == yi * columns) by (nonlinear_arith);
        }
    }
    proof {
        assert(out@.len() == rows * columns);
        assert(out@ =~= grid_seq(rows as int, columns as int));
    }
    out
}

/// Index of `pos` in the position table, if present.
fn find_position(positions: &Vec<Position>, pos: Position) -> (r: Option<usize>)
    ensures
        match r {
            Some(i) => i < positions@.len() && positions@[i as int] == pos,
            None => forall|i: int| 0 <= i < positions@.len() ==> positions@[i] != pos,
        },
{
    let mut i: usize = 0;
    while i < positions.len()
        invariant
            i <= positions@.len(),
            forall|k: int| 0 <= k < i ==> positions@[k] != pos,
        decreases positions@.len() - i,
    {
        if positions[i] == pos {
            return Some(i);
        }
        i = i + 1;
    }
    None
}

/// Whether some already-created edge joins the unordered pair `{p, q}`.
fn edge_present(edges: &Vec<ReactorEdge>, positions: &Vec<Position>, p: Position, q: Position) -> (r:
    bool)
    requires
        forall|e: int|
            0 <= e < edges@.len() ==> (#[trigger] edges@[e]).a < positions@.len()
                && edges@[e].b < positions@.len(),
    ensures
        r == pair_connected(edges@, positions@, p, q),
{
    let mut e: usize = 0;
    while e < edges.len()
        invariant
            e <= edges@.len(),
            forall|k: int|
                0 <= k < edges@.len() ==> (#[trigger] edges@[k]).a < positions@.len()
                    && edges@[k].b < positions@.len(),
            forall|k: int| 0 <= k < e ==> !connects_pair(#[trigger] edges@[k], positions@, p, q),
        decreases edges@.len() - e,
    {
        let edge = edges[e];
        let pa = positions[edge.a];
        let pb = positions[edge.b];
        if (pa == p && pb == q) || (pa == q && pb == p) {
            return true;
        }
        e = e + 1;
    }
    false
}

impl ReactorCore {
    /// Build the reactor lattice for a `rows x columns` centered grid:
    /// every valid-parity position becomes one cell; the cell list is
    /// partitioned in order into valves of `valve_size` cells, and the
    /// valves in order into `circuit_count` circuits of
    /// `valves_per_circuit` valves; adjacent cells are joined by exactly
    /// one edge per unordered pair, flagged as a coolant edge exactly when
    /// both endpoints share a valve. Valves start closed, circuits at full
    /// pump power, every cell in its default state.
    ///
    /// Fails with `NoValidCells` when the parity rule yields no cell, and
    /// with `UnevenPartition` when the cell list does not divide exactly
    /// into the requested partition.
    pub fn new(
        cfg: &SimulationConfig,
        rows: usize,
        columns: usize,
        valve_size: usize,
        valves_per_circuit: usize,
        circuit_count: usize,
    ) -> (r: Result<ReactorCore, BuildError>)
        requires
            rows <= 100,
            columns <= 100,
        ensures
            match r {
                Ok(core) => {
                    &&& core.graph_wf()
                    &&& core.state_wf(*cfg)
                    &&& core.rows == rows
                    &&& core.columns == columns
                    &&& core.positions@ == valid_of(grid_seq(rows as int, columns as int))
                    &&& core.n() >= 1
                    &&& core.n() == valve_size * valves_per_circuit * circuit_count
                    &&& forall|i: int|
                        0 <= i < core.n() ==> core.cells@[i] == default_cell(*cfg)
                    &&& core.valves@.len() == valves_per_circuit * circuit_count
                    &&& forall|v: int|
                        0 <= v < core.valves@.len() ==> {
                            &&& !(#[trigger] core.valves@[v]).is_open
                            &&& core.valves@[v].cells@.len() == valve_size
                            &&& forall|k: int|
                                0 <= k < valve_size ==> (#[trigger] core.valves@[v].cells@[k])
                                    == v * valve_size + k
                        }
                    &&& core.circuits@.len() == circuit_count
                    &&& forall|c: int|
                        0 <= c < circuit_count ==> {
                            &&& (#[trigger] core.circuits@[c]).power == SCALE
                            &&& core.circuits@[c].valves@.len() == valves_per_circuit
                            &&& forall|j: int|
                                0 <= j < valves_per_circuit ==> (#[trigger] core.circuits@[c].valves@[j])
                                    == c * valves_per_circuit + j
                        }
                    &&& forall|e: int|
                        0 <= e < core.edges@.len() ==> {
                            let ed = #[trigger] core.edges@[e];
                            &&& ed.reactivity == 0
                            &&& ed.temperature == 25_000
                            &&& ed.coolant == (core.valve_of@[ed.a as int]
                                == core.valve_of@[ed.b as int])
                        }
                    &&& distinct_pairs(core.edges@, core.positions@)
                    &&& forall|i: int, j: int|
                        #![trigger core.positions@[i], core.positions@[j]]
                        0 <= i < core.n() && 0 <= j < core.n() && adjacent(
                            core.positions@[i],
                            core.positions@[j],
                        ) ==> pair_connected(
                            core.edges@,
                            core.positions@,
                            core.positions@[i],
                            core.positions@[j],
                        )
                },
                Err(BuildError::NoValidCells) => valid_of(
                    grid_seq(rows as int, columns as int),
                ).len() == 0,
                Err(BuildError::UnevenPartition) => {
                    &&& valid_of(grid_seq(rows as int, columns as int)).len() >= 1
                    &&& valid_of(grid_seq(rows as int, columns as int)).len() != valve_size
                        * valves_per_circuit * circuit_count
                },
            },
    {
        let all = grid_positions(rows, columns);

        // Keep the valid-parity sites, in enumeration order.
        let mut positions: Vec<Position> = Vec::new();
        let mut i: usize = 0;
        while i < all.len()
            invariant
                i <= all@.len(),
                positions@ == valid_of(all@.take(i as int)),
            decreases all@.len() - i,
        {
            proof {
                assert(all@.take(i + 1).drop_last() =~= all@.take(i as int));
            }
            let p = all[i];
            if p.is_valid() {
                positions.push(p);
            }
            i = i + 1;
        }
        proof {
            assert(all@.take(all@.len() as int) =~= all@);
        }

        let n = positions.len();
        if n == 0 {
            return Err(BuildError::NoValidCells);
        }
        proof {
            assert(all@.len() <= 10_000) by (nonlinear_arith)
                requires
                    all@.len() == rows * columns,
                    rows <= 100,
                    columns <= 100,
            ;
            lemma_valid_of_len(all@);
            lemma_valid_of_is_valid(all@);
            assert(rows >= 1 && columns >= 1) by (nonlinear_arith)
                requires
                    rows * columns >= 1,
            ;
            assert forall|k: int| 0 <= k < positions@.len() implies {
                let q = #[trigger] positions@[k];
                -100 <= q.x <= 100 && -100 <= q.y <= 100
            } by {
                lemma_valid_of_membership(all@, k);
                let m = choose|m: int| 0 <= m < all@.len() && all@[m] == positions@[k];
                lemma_grid_position_bounds(rows as int, columns as int, m);
            }
        }

        // The partition must cover the cell list exactly.
        let product = match valve_size.checked_mul(valves_per_circuit) {
            Some(p1) => p1.checked_mul(circuit_count),
            None => None,
        };
        let product = match product {
            Some(p) => {
                if p == n {
                    p
                } else {
                    return Err(BuildError::UnevenPartition);
                }
            },
            None => {
                proof {
                    lemma_partition_product_large(
                        valve_size as int,
                        valves_per_circuit as int,
                        circuit_count as int,
                        n as int,
                    );
                }
                return Err(BuildError::UnevenPartition);
            },
        };
        proof {
            if valve_size == 0 || valves_per_circuit == 0 || circuit_count == 0 {
                assert(valve_size * valves_per_circuit * circuit_count == 0) by (nonlinear_arith)
                    requires
                        valve_size == 0 || valves_per_circuit == 0 || circuit_count == 0,
                ;
            }
        }

        // One default cell per site.
        let mut cells: Vec<ReactorCell> = Vec::new();
        let mut i: usize = 0;
        while i < n
            invariant
                i <= n,
                cells@.len() == i,
                forall|k: int| 0 <= k < i ==> cells@[k] == default_cell(*cfg),
            decreases n - i,
        {
            cells.push(ReactorCell::new(cfg));
            i = i + 1;
        }

        // Cell `i` belongs to valve `i / valve_size`.
        let mut valve_of: Vec<usize> = Vec::new();
        let mut i: usize = 0;
        while i < n
            invariant
                valve_size >= 1,
                i <= n,
                valve_of@.len() == i,
                forall|k: int| 0 <= k < i ==> #[trigger] valve_of@[k] == k / (valve_size as int),
            decreases n - i,
        {
            valve_of.push(i / valve_size);
            i = i + 1;
        }

        // Valves over consecutive chunks of the cell list, all closed.
        proof {
            lemma_partition_factors(
                valve_size as int,
                valves_per_circuit as int,
                circuit_count as int,
                n as int,
            );
        }
        let valve_count = valves_per_circuit * circuit_count;
        let mut valves: Vec<CoolantValve> = Vec::new();
        let mut v: usize = 0;
        while v < valve_count
            invariant
                valve_size >= 1,
                valve_count * valve_size == n,
                n <= 10_000,
                v <= valve_count,
                valves@.len() == v,
                forall|w: int|
                    0 <= w < v ==> {
                        &&& !(#[trigger] valves@[w]).is_open
                        &&& valves@[w].cells@.len() == valve_size
                        &&& forall|k: int|
                            0 <= k < valve_size ==> (#[trigger] valves@[w].cells@[k]) == w
                                * valve_size + k
                    },
            decreases valve_count - v,
        {
            proof {
                lemma_chunk_fits(v as int, valve_count as int, valve_size as int);
            }
            let mut members: Vec<usize> = Vec::new();
            let mut k: usize = 0;
            while k < valve_size
                invariant
                    v * valve_size + valve_size <= n,
                    n <= 10_000,
                    k <= valve_size,
                    members@.len() == k,
                    forall|m: int|
                        0 <= m < k ==> (#[trigger] members@[m]) == v * valve_size + m,
                decreases valve_size - k,
            {
                members.push(v * valve_size + k);
                k = k + 1;
            }
            valves.push(CoolantValve { is_open: false, cells: members });
            v = v + 1;
        }

        // Valve `v` belongs to circuit `v / valves_per_circuit`.
        let mut circuit_of: Vec<usize> = Vec::new();
        let mut v: usize = 0;
        while v < valve_count
            invariant
                valves_per_circuit >= 1,
                v <= valve_count,
                circuit_of@.len() == v,
                forall|w: int|
                    0 <= w < v ==> #[trigger] circuit_of@[w] == w / (valves_per_circuit as int),
            decreases valve_count - v,
        {
            circuit_of.push(v / valves_per_circuit);
            v = v + 1;
        }

        // Circuits over consecutive chunks of the valve list, pumps on.
        let mut circuits: Vec<CoolantCircuit> = Vec::new();
        let mut c: usize = 0;
        while c < circuit_count
            invariant
                valves_per_circuit >= 1,
                circuit_count * valves_per_circuit == valve_count,
                valve_count <= 10_000,
                c <= circuit_count,
                circuits@.len() == c,
                forall|w: int|
                    0 <= w < c ==> {
                        &&& (#[trigger] circuits@[w]).power == SCALE
                        &&& circuits@[w].valves@.len() == valves_per_circuit
                        &&& forall|j: int|
                            0 <= j < valves_per_circuit ==> (#[trigger] circuits@[w].valves@[j]) == w
                                * valves_per_circuit + j
                    },
            decreases circuit_count - c,
        {
            proof {
                lemma_chunk_fits(c as int, circuit_count as int, valves_per_circuit as int);
            }
            let mut members: Vec<usize> = Vec::new();
            let mut j: usize = 0;
            while j < valves_per_circuit
                invariant
                    c * valves_per_circuit + valves_per_circuit <= valve_count,
                    valve_count <= 10_000,
                    j <= valves_per_circuit,
                    members@.len() == j,
                    forall|m: int|
                        0 <= m < j ==> (#[trigger] members@[m]) == c * valves_per_circuit + m,
                decreases valves_per_circuit - j,
            {
                members.push(c * valves_per_circuit + j);
                j = j + 1;
            }
            circuits.push(CoolantCircuit { power: SCALE, valves: members });
            c = c + 1;
        }

        // One edge per unordered pair of adjacent sites; coolant edges
        // join cells of the same valve.
        let mut edges: Vec<ReactorEdge> = Vec::new();
        let mut i: usize = 0;
        while i < n
            invariant
                n == positions@.len(),
                n == valve_of@.len(),
                n <= 10_000,
                i <= n,
                forall|k: int|
                    0 <= k < n ==> {
                        let p = #[trigger] positions@[k];
                        -100 <= p.x <= 100 && -100 <= p.y <= 100
                    },
                forall|e: int|
                    0 <= e < edges@.len() ==> {
                        let ed = #[trigger] edges@[e];
                        &&& ed.a < n
                        &&& ed.b < n
                        &&& ed.a != ed.b
                        &&& adjacent(positions@[ed.a as int], positions@[ed.b as int])
                        &&& ed.reactivity == 0
                        &&& ed.temperature == 25_000
                        &&& ed.coolant == (valve_of@[ed.a as int] == valve_of@[ed.b as int])
                    },
                distinct_pairs(edges@, positions@),
                forall|a: int, b: int|
                    #![trigger positions@[a], positions@[b]]
                    0 <= a < i && 0 <= b < n && adjacent(
                        positions@[a],
                        positions@[b],
                    ) ==> pair_connected(edges@, positions@, positions@[a], positions@[b]),
            decreases n - i,
        {
            let p = positions[i];
            let nb = p.neighbours();
            let mut t: usize = 0;
            while t < 4
                invariant
                    n == positions@.len(),
                    n == valve_of@.len(),
                    n <= 10_000,
                    i < n,
                    t <= 4,
                    p == positions@[i as int],
                    nb@.len() == 4,
                    forall|k: int| 0 <= k < 4 ==> adjacent(p, #[trigger] nb@[k]),
                    forall|k: int|
                        0 <= k < n ==> {
                            let q = #[trigger] positions@[k];
                            -100 <= q.x <= 100 && -100 <= q.y <= 100
                        },
                    forall|e: int|
                        0 <= e < edges@.len() ==> {
                            let ed = #[trigger] edges@[e];
                            &&& ed.a < n
                            &&& ed.b < n
                            &&& ed.a != ed.b
                            &&& adjacent(positions@[ed.a as int], positions@[ed.b as int])
                            &&& ed.reactivity == 0
                            &&& ed.temperature == 25_000
                            &&& ed.coolant == (valve_of@[ed.a as int] == valve_of@[ed.b as int])
                        },
                    distinct_pairs(edges@, positions@),
                    forall|a: int, b: int|
                        #![trigger positions@[a], positions@[b]]
                        0 <= a < i && 0 <= b < n && adjacent(
                            positions@[a],
                            positions@[b],
                        ) ==> pair_connected(edges@, positions@, positions@[a], positions@[b]),
                    forall|b: int|
                        0 <= b < n && (exists|k: int|
                            0 <= k < t && positions@[b] == #[trigger] nb@[k]) ==> pair_connected(
                            edges@,
                            positions@,
                            p,
                            #[trigger] positions@[b],
                        ),
                decreases 4 - t,
            {
                let q = nb[t];
                match find_position(&positions, q) {
                    Some(j) => {
                        if !edge_present(&edges, &positions, p, q) {
                            let ghost before = edges@;
                            edges.push(
                                ReactorEdge {
                                    a: i,
                                    b: j,
                                    reactivity: 0,
                                    temperature: 25_000,
                                    coolant: valve_of[i] == valve_of[j],
                                },
                            );
                            proof {
                                let ed = edges@.last();
                                assert(positions@[ed.a as int] == p);
                                assert(positions@[ed.b as int] == q);
                                assert(p != q);
                                assert forall|e1: int, e2: int|
                                    0 <= e1 < edges@.len() && 0 <= e2 < edges@.len() && e1 != e2
                                        implies !connects_pair(
                                        #[trigger] edges@[e1],
                                        positions@,
                                        positions@[(#[trigger] edges@[e2]).a as int],
                                        positions@[edges@[e2].b as int],
                                    ) by {
                                    if e1 < before.len() && e2 < before.len() {
                                    } else if e2 == before.len() {
                                        assert(!connects_pair(edges@[e1], positions@, p, q));
                                    } else {
                                        assert(e1 == before.len());
                                        if connects_pair(
                                            edges@[e1],
                                            positions@,
                                            positions@[edges@[e2].a as int],
                                            positions@[edges@[e2].b as int],
                                        ) {
                                            assert(connects_pair(
                                                edges@[e2],
                                                positions@,
                                                p,
                                                q,
                                            ));
                                        }
                                    }
                                }
                                assert forall|a: int, b: int|
                                    #![trigger positions@[a], positions@[b]]
                                    0 <= a < i && 0 <= b < n && adjacent(
                                        positions@[a],
                                        positions@[b],
                                    ) implies pair_connected(
                                    edges@,
                                    positions@,
                                    positions@[a],
                                    positions@[b],
                                ) by {
                                    lemma_pair_connected_extend(
                                        before,
                                        edges@,
                                        positions@,
                                        positions@[a],
                                        positions@[b],
                                    );
                                }
                                assert forall|b: int|
                                    0 <= b < n && (exists|k: int|
                                        0 <= k < t && positions@[b] == #[trigger] nb@[k])
                                        implies pair_connected(
                                    edges@,
                                    positions@,
                                    p,
                                    positions@[b],
                                ) by {
                                    lemma_pair_connected_extend(
                                        before,
                                        edges@,
                                        positions@,
                                        p,
                                        positions@[b],
                                    );
                                }
                                assert(pair_connected(edges@, positions@, p, q)) by {
                                    assert(connects_pair(
                                        edges@[edges@.len() - 1],
                                        positions@,
                                        p,
                                        q,
                                    ));
                                }
                            }
                        }
                    },
                    None => {},
                }
                t = t + 1;
                proof {
                    assert forall|b: int|
                        0 <= b < n && (exists|k: int|
                            0 <= k < t && positions@[b] == #[trigger] nb@[k]) implies pair_connected(
                        edges@,
                        positions@,
                        p,
                        positions@[b],
                    ) by {
                        let k = choose|k: int| 0 <= k < t && positions@[b] == nb@[k];
                        if k == t - 1 {
                            assert(positions@[b] == nb@[t - 1]);
                        }
                    }
                }
            }
            i = i + 1;
            proof {
                assert forall|a: int, b: int|
                    #![trigger positions@[a], positions@[b]]
                    0 <= a < i && 0 <= b < n && adjacent(
                        positions@[a],
                        positions@[b],
                    ) implies pair_connected(edges@, positions@, positions@[a], positions@[b]) by {
                    if a == i - 1 {
                        let pb = positions@[b];
                        assert(adjacent(p, pb));
                        if pb.x == p.x - 1 && pb.y == p.y - 1 {
                            assert(pb == nb@[0]);
                        } else if pb.x == p.x - 1 && pb.y == p.y + 1 {
                            assert(pb == nb@[1]);
                        } else if pb.x == p.x + 1 && pb.y == p.y - 1 {
                            assert(pb == nb@[2]);
                        } else {
                            assert(pb == nb@[3]);
                        }
                    }
                }
            }
        }

        let core = ReactorCore {
            rows,
            columns,
            positions,
            cells,
            edges,
            valves,
            circuits,
            valve_of,
            circuit_of,
        };
        proof {
            assert(valve_size <= n && valves_per_circuit <= n) by (nonlinear_arith)
                requires
                    valve_size * valves_per_circuit * circuit_count == n,
                    valve_size >= 1,
                    valves_per_circuit >= 1,
                    circuit_count >= 1,
            ;
            assert forall|v: int| 0 <= v < core.valves@.len() implies #[trigger] core.valve_ok(v) by {
                assert forall|k: int| 0 <= k < core.valves@[v].cells@.len() implies {
                    let ci = #[trigger] core.valves@[v].cells@[k];
                    ci < core.n() && core.valve_of@[ci as int] == v
                } by {
                    let ci = core.valves@[v].cells@[k];
                    assert(ci == v * (valve_size as int) + k);
                    lemma_chunk_fits(v, (valves_per_circuit * circuit_count) as int, valve_size as int);
                    lemma_fundamental_div_mod_converse_div(ci as int, valve_size as int, v, k);
                }
            }
            assert forall|c: int| 0 <= c < core.circuits@.len() implies #[trigger] core.circuit_ok(c)
                by {
                assert forall|j: int| 0 <= j < core.circuits@[c].valves@.len() implies {
                    let vi = #[trigger] core.circuits@[c].valves@[j];
                    vi < core.valves@.len() && core.circuit_of@[vi as int] == c
                } by {
                    let vi = core.circuits@[c].valves@[j];
                    assert(vi == c * (valves_per_circuit as int) + j);
                    lemma_chunk_fits(c, circuit_count as int, valves_per_circuit as int);
                    lemma_fundamental_div_mod_converse_div(vi as int, valves_per_circuit as int, c, j);
                }
            }
            assert forall|k: int| 0 <= k < core.n() implies (#[trigger] core.valve_of@[k])
                < core.valves@.len() by {
                assert(core.valve_of@[k] == k / (valve_size as int));
                lemma_div_below(k, valve_size as int, (valves_per_circuit * circuit_count) as int);
            }
            assert forall|w: int| 0 <= w < core.valves@.len() implies (#[trigger] core.circuit_of@[w])
                < core.circuits@.len() by {
                assert(core.circuit_of@[w] == w / (valves_per_circuit as int));
                lemma_div_below(w, valves_per_circuit as int, circuit_count as int);
            }
            assert forall|k: int|
                0 <= k < core.n() implies core.valve_contains(
                (#[trigger] core.valve_of@[k]) as int,
                k,
            ) by {
                let v = k / (valve_size as int);
                lemma_div_below(k, valve_size as int, (valves_per_circuit * circuit_count) as int);
                vstd::arithmetic::div_mod::lemma_fundamental_div_mod(k, valve_size as int);
                vstd::arithmetic::div_mod::lemma_mod_bound(k, valve_size as int);
                let m = k % (valve_size as int);
                assert((valve_size as int) * v == v * (valve_size as int)) by (nonlinear_arith);
                assert(core.valves@[v].cells@[m] == v * (valve_size as int) + m);
                assert(core.valves@[v].cells@[m] == k);
            }
            assert forall|w: int|
                0 <= w < core.valves@.len() implies core.circuit_contains(
                (#[trigger] core.circuit_of@[w]) as int,
                w,
            ) by {
                let c = w / (valves_per_circuit as int);
                lemma_div_below(w, valves_per_circuit as int, circuit_count as int);
                vstd::arithmetic::div_mod::lemma_fundamental_div_mod(w, valves_per_circuit as int);
                vstd::arithmetic::div_mod::lemma_mod_bound(w, valves_per_circuit as int);
                let m = w % (valves_per_circuit as int);
                assert((valves_per_circuit as int) * c == c * (valves_per_circuit as int))
                    by (nonlinear_arith);
                assert(core.circuits@[c].valves@[m] == c * (valves_per_circuit as int) + m);
                assert(core.circuits@[c].valves@[m] == w);
            }
        }
        Ok(core)
    }
}

/// If the in-order chunk index is in range, the whole chunk fits below the
/// total: `(v + 1) * size <= count * size`.
proof fn lemma_chunk_fits(v: int, count: int, size: int)
    requires
        0 <= v < count,
        size >= 0,
    ensures
        v * size + size <= count * size,
        v * size >= 0,
{
    assert((v + 1) * size <= count * size && v * size >= 0) by (nonlinear_arith)
        requires
            0 <= v < count,
            size >= 0,
    ;
    assert((v + 1) * size == v * size + size) by (nonlinear_arith);
}

/// A cell index below `count * size` has its chunk index below `count`.
proof fn lemma_div_below(k: int, size: int, count: int)
    requires
        size >= 1,
        0 <= k < count * size,
    ensures
        k / size < count,
{
    if k / size >= count {
        assert((k / size) * size >= count * size) by (nonlinear_arith)
            requires
                k / size >= count,
                size >= 1,
        ;
        vstd::arithmetic::div_mod::lemma_fundamental_div_mod(k, size);
        vstd::arithmetic::div_mod::lemma_mod_bound(k, size);
        assert(size * (k / size) == (k / size) * size) by (nonlinear_arith);
    }
}

/// When the checked product overflowed or a factor was zero, the exact
/// product cannot equal a cell count in `1..=10000`.
proof fn lemma_partition_product_large(a: int, b: int, c: int, n: int)
    requires
        1 <= n <= 10_000,
        a * b > usize::MAX || (0 <= a * b <= usize::MAX && (a * b) * c > usize::MAX),
        a >= 0,
        b >= 0,
        c >= 0,
    ensures
        a * b * c != n,
{
    if a * b > usize::MAX {
        if c == 0 {
            assert((a * b) * c == 0) by (nonlinear_arith)
                requires
                    c == 0,
            ;
        } else {
            assert((a * b) * c >= a * b) by (nonlinear_arith)
                requires
                    a * b >= 0,
                    c >= 1,
            ;
        }
    }
}

/// When the partition product equals the cell count, each factor is
/// positive and the valve count times the valve size is the cell count.
proof fn lemma_partition_factors(a: int, b: int, c: int, n: int)
    requires
        n >= 1,
        a * b * c == n,
        a >= 0,
        b >= 0,
        c >= 0,
    ensures
        a >= 1,
        b >= 1,
        c >= 1,
        (b * c) * a == n,
        b * c <= n,
{
    assert(a >= 1 && b >= 1 && c >= 1) by (nonlinear_arith)
        requires
            a * b * c == n,
            n >= 1,
            a >= 0,
            b >= 0,
            c >= 0,
    ;
    assert((b * c) * a == a * b * c) by (nonlinear_arith);
    assert(b * c <= (b * c) * a) by (nonlinear_arith)
        requires
            a >= 1,
            b >= 1,
            c >= 1,
    ;
}

/// The invalid-parity (control-rod / structural) positions of `s`, in
/// order.
pub open spec fn control_of(s: Seq<Position>) -> Seq<Position>
    decreases s.len(),
{
    if s.len() == 0 {
        Seq::empty()
    } else if !s.last().is_valid_spec() {
        control_of(s.drop_last()).push(s.last())
    } else {
        control_of(s.drop_last())
    }
}

/// Whether `found` is a correct cell lookup result for position `p`.
pub open spec fn cell_lookup_ok(core: ReactorCore, p: Position, found: Option<usize>) -> bool {
    match found {
        Some(i) => i < core.n() && core.positions@[i as int] == p,
        None => forall|j: int| 0 <= j < core.n() ==> core.positions@[j] != p,
    }
}

impl ReactorCore {
    /// All positions of the centered grid, in enumeration order.
    pub fn iter_all_positions(&self) -> (r: Vec<Position>)
        requires
            self.graph_wf(),
        ensures
            r@ == grid_seq(self.rows as int, self.columns as int),
    {
        grid_positions(self.rows, self.columns)
    }

    /// The valid-parity (fuel-cell) positions of the grid, in order.
    pub fn iter_cell_positions(&self) -> (r: Vec<Position>)
        requires
            self.graph_wf(),
        ensures
            r@ == valid_of(grid_seq(self.rows as int, self.columns as int)),
    {
        let all = grid_positions(self.rows, self.columns);
        let mut out: Vec<Position> = Vec::new();
        let mut i: usize = 0;
        while i < all.len()
            invariant
                i <= all@.len(),
                out@ == valid_of(all@.take(i as int)),
            decreases all@.len() - i,
        {
            proof {
                assert(all@.take(i + 1).drop_last() =~= all@.take(i as int));
            }
            let p = all[i];
            if p.is_valid() {
                out.push(p);
            }
            i = i + 1;
        }
        proof {
            assert(all@.take(all@.len() as int) =~= all@);
        }
        out
    }

    /// The invalid-parity (control-rod) positions of the grid, in order.
    pub fn iter_control_positions(&self) -> (r: Vec<Position>)
        requires
            self.graph_wf(),
        ensures
            r@ == control_of(grid_seq(self.rows as int, self.columns as int)),
    {
        let all = grid_positions(self.rows, self.columns);
        let mut out: Vec<Position> = Vec::new();
        let mut i: usize = 0;
        while i < all.len()
            invariant
                i <= all@.len(),
                out@ == control_of(all@.take(i as int)),
            decreases all@.len() - i,
        {
            proof {
                assert(all@.take(i + 1).drop_last() =~= all@.take(i as int));
            }
            let p = all[i];
            if !p.is_valid() {
                out.push(p);
            }
            i = i + 1;
        }
        proof {
            assert(all@.take(all@.len() as int) =~= all@);
        }
        out
    }

    /// Every grid position with the index of its cell, if one exists.
    pub fn iter_all_positions_with_cells(&self) -> (r: Vec<(Position, Option<usize>)>)
        requires
            self.graph_wf(),
        ensures
            r@.len() == self.rows * self.columns,
            forall|k: int|
                0 <= k < r@.len() ==> {
                    &&& (#[trigger] r@[k]).0 == grid_seq(self.rows as int, self.columns as int)[k]
                    &&& cell_lookup_ok(*self, r@[k].0, r@[k].1)
                },
    {
        let all = grid_positions(self.rows, self.columns);
        let mut out: Vec<(Position, Option<usize>)> = Vec::new();
        let mut i: usize = 0;
        while i < all.len()
            invariant
                self.graph_wf(),
                all@ == grid_seq(self.rows as int, self.columns as int),
                i <= all@.len(),
                out@.len() == i,
                forall|k: int|
                    0 <= k < i ==> {
                        &&& (#[trigger] out@[k]).0 == all@[k]
                        &&& cell_lookup_ok(*self, out@[k].0, out@[k].1)
                    },
            decreases all@.len() - i,
        {
            let p = all[i];
            let found = self.find_cell(p);
            out.push((p, found));
            i = i + 1;
        }
        out
    }

    /// Every cell's position with its index, in enumeration order.
    pub fn iter_cells(&self) -> (r: Vec<(Position, usize)>)
        requires
            self.graph_wf(),
        ensures
            r@.len() == self.n(),
            forall|k: int|
                0 <= k < r@.len() ==> (#[trigger] r@[k]) == (self.positions@[k], k as usize),
    {
        let mut out: Vec<(Position, usize)> = Vec::new();
        let mut i: usize = 0;
        while i < self.positions.len()
            invariant
                i <= self.positions@.len(),
                out@.len() == i,
                forall|k: int|
                    0 <= k < i ==> (#[trigger] out@[k]) == (self.positions@[k], k as usize),
            decreases self.positions@.len() - i,
        {
            out.push((self.positions[i], i));
            i = i + 1;
        }
        out
    }
}

/// Everything `valid_of` keeps is a valid position.
proof fn lemma_valid_of_is_valid(s: Seq<Position>)
    ensures
        forall|k: int|
            0 <= k < valid_of(s).len() ==> (#[trigger] valid_of(s)[k]).is_valid_spec(),
    decreases s.len(),
{
    if s.len() > 0 {
        lemma_valid_of_is_valid(s.drop_last());
        assert forall|k: int|
            0 <= k < valid_of(s).len() implies (#[trigger] valid_of(s)[k]).is_valid_spec() by {
            if s.last().is_valid_spec() && k == valid_of(s).len() - 1 {
            } else {
                assert(valid_of(s)[k] == valid_of(s.drop_last())[k]);
            }
        }
    }
}

/// Filtering never lengthens a sequence.
proof fn lemma_valid_of_len(s: Seq<Position>)
    ensures
        valid_of(s).len() <= s.len(),
    decreases s.len(),
{
    if s.len() > 0 {
        lemma_valid_of_len(s.drop_last());
    }
}

/// An edge list only ever grows during construction; a connected pair
/// stays connected.
proof fn lemma_pair_connected_extend(
    before: Seq<ReactorEdge>,
    after: Seq<ReactorEdge>,
    pos: Seq<Position>,
    p: Position,
    q: Position,
)
    requires
        before.len() <= after.len(),
        forall|e: int| 0 <= e < before.len() ==> after[e] == before[e],
        pair_connected(before, pos, p, q),
    ensures
        pair_connected(after, pos, p, q),
{
    let e = choose|e: int| 0 <= e < before.len() && connects_pair(#[trigger] before[e], pos, p, q);
    assert(connects_pair(after[e], pos, p, q));
}

/// Everything `valid_of` keeps occurs in the source sequence.
proof fn lemma_valid_of_membership(s: Seq<Position>, k: int)
    requires
        0 <= k < valid_of(s).len(),
    ensures
        exists|m: int| 0 <= m < s.len() && s[m] == valid_of(s)[k],
    decreases s.len(),
{
    if s.len() > 0 {
        if s.last().is_valid_spec() && k == valid_of(s).len() - 1 {
            assert(s[s.len() - 1] == valid_of(s)[k]);
        } else {
            lemma_valid_of_membership(s.drop_last(), k);
            let m = choose|m: int|
                0 <= m < s.drop_last().len() && s.drop_last()[m] == valid_of(s.drop_last())[k];
            assert(s[m] == valid_of(s)[k]);
        }
    }
}

} // verus!
