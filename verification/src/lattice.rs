//! The reactor lattice: integer grid positions with the diamond parity
//! rule, per-cell physical state, coupling edges, and the valve/circuit
//! grouping that routes coolant. The container is built once per session;
//! afterwards only cell and edge attribute values change, never the shape.

use vstd::prelude::*;
use vstd::arithmetic::div_mod::lemma_mod_multiples_vanish;
use crate::config::SimulationConfig;
use crate::fixed::SCALE;
use crate::types::{ControlRodMovement, FuelRod};

verus! {

/// Whether an integer is odd, under Euclidean remainder.
pub open spec fn odd(v: int) -> bool {
    v % 2 == 1
}

/// An integer lattice coordinate.
#[derive(Clone, Copy, Debug, PartialEq, Eq, Structural)]
pub struct Position {
    pub x: i32,
    pub y: i32,
}

impl Position {
    /// The position at the given coordinates.
    pub fn new(x: i32, y: i32) -> (p: Position)
        ensures
            p.x == x,
            p.y == y,
    {
        Position { x, y }
    }

    /// A fuel-cell site has exactly one odd coordinate; equivalently, an
    /// odd coordinate sum. The complementary parity marks a control-rod
    /// or structural site.
    pub open spec fn is_valid_spec(self) -> bool {
        odd(self.x + self.y)
    }

    /// Whether this position is a fuel-cell site.
    pub fn is_valid(&self) -> (b: bool)
        ensures
            b == self.is_valid_spec(),
    {
        let s: i64 = self.x as i64 + self.y as i64;
        if s >= 0 {
            let r = (s as u64) % 2 == 1;
            r
        } else {
            proof {
                lemma_mod_multiples_vanish(-(s as int), s as int, 2);
            }
            let r = ((-s) as u64) % 2 == 1;
            r
        }
    }

    /// The four diagonal neighbour positions.
    pub fn neighbours(&self) -> (r: [Position; 4])
        requires
            i32::MIN < self.x < i32::MAX,
            i32::MIN < self.y < i32::MAX,
        ensures
            r@.len() == 4,
            r@[0].x == self.x - 1 && r@[0].y == self.y - 1,
            r@[1].x == self.x - 1 && r@[1].y == self.y + 1,
            r@[2].x == self.x + 1 && r@[2].y == self.y - 1,
            r@[3].x == self.x + 1 && r@[3].y == self.y + 1,
            forall|k: int| 0 <= k < 4 ==> adjacent(*self, #[trigger] r@[k]),
    {
        [
            Position::new(self.x - 1, self.y - 1),
            Position::new(self.x - 1, self.y + 1),
            Position::new(self.x + 1, self.y - 1),
            Position::new(self.x + 1, self.y + 1),
        ]
    }
}

/// Two positions are adjacent when they are diagonal neighbours.
pub open spec fn adjacent(p: Position, q: Position) -> bool {
    &&& (q.x == p.x + 1 || q.x == p.x - 1)
    &&& (q.y == p.y + 1 || q.y == p.y - 1)
}

/// Whether edge `e`, read against the position table `pos`, joins the
/// unordered pair `{p, q}`.
pub open spec fn connects_pair(e: ReactorEdge, pos: Seq<Position>, p: Position, q: Position) -> bool {
    &&& e.a < pos.len()
    &&& e.b < pos.len()
    &&& {
        ||| (pos[e.a as int] == p && pos[e.b as int] == q)
        ||| (pos[e.a as int] == q && pos[e.b as int] == p)
    }
}

/// Whether some edge joins the unordered pair `{p, q}`.
pub open spec fn pair_connected(
    edges: Seq<ReactorEdge>,
    pos: Seq<Position>,
    p: Position,
    q: Position,
) -> bool {
    exists|e: int| 0 <= e < edges.len() && connects_pair(#[trigger] edges[e], pos, p, q)
}

/// No two edges join the same unordered pair of positions.
pub open spec fn distinct_pairs(edges: Seq<ReactorEdge>, pos: Seq<Position>) -> bool {
    forall|e1: int, e2: int|
        0 <= e1 < edges.len() && 0 <= e2 < edges.len() && e1 != e2 ==> !connects_pair(
            #[trigger] edges[e1],
            pos,
            pos[(#[trigger] edges[e2]).a as int],
            pos[edges[e2].b as int],
        )
}

/// One fuel-cell site with its physical state. Levels are fixed-point
/// fractions of the cell volume; temperatures are milli-degrees Celsius.
#[derive(Clone, Copy, Debug)]
pub struct ReactorCell {
    /// Control rod insertion fraction: 0 fully raised, `SCALE` fully inserted.
    pub control_rod: u64,
    /// Direction the rod is travelling, if a movement is engaged.
    pub rod_movement: Option<ControlRodMovement>,
    /// Reactivity before neighbour diffusion.
    pub local_reactivity: u64,
    /// Total reactivity after neighbour diffusion.
    pub reactivity: u64,
    /// Cell temperature.
    pub temperature: u64,
    /// How full the cell is with coolant, `0..=SCALE`.
    pub coolant_level: u64,
    /// Coolant flowing into the cell per tick, set by circuit distribution.
    pub coolant_flow: u64,
    /// How full the cell is with steam, `0..=SCALE`.
    pub steam_level: u64,
    /// Steam extracted from the cell this tick.
    pub steam_output: u64,
    /// Cell pressure, at least the nominal baseline.
    pub pressure: u64,
    /// Upper bound on steam extraction per tick.
    pub steam_pull_capacity: u64,
    /// Fuel composition of the cell's rod.
    pub fuel: FuelRod,
}

/// The state every cell starts a session with.
pub open spec fn default_cell(cfg: SimulationConfig) -> ReactorCell {
    ReactorCell {
        control_rod: SCALE,
        rod_movement: None,
        local_reactivity: 0,
        reactivity: 0,
        temperature: 25_000,
        coolant_level: 0,
        coolant_flow: 0,
        steam_level: 0,
        steam_output: 0,
        pressure: cfg.nominal_pressure,
        steam_pull_capacity: 0,
        fuel: FuelRod::Uranium,
    }
}

impl ReactorCell {
    /// A fresh cell: rod fully inserted, ambient temperature, empty of
    /// coolant and steam, at baseline pressure, Uranium fuel.
    pub fn new(cfg: &SimulationConfig) -> (c: ReactorCell)
        ensures
            c == default_cell(*cfg),
    {
        ReactorCell {
            control_rod: SCALE,
            rod_movement: None,
            local_reactivity: 0,
            reactivity: 0,
            temperature: 25_000,
            coolant_level: 0,
            coolant_flow: 0,
            steam_level: 0,
            steam_output: 0,
            pressure: cfg.nominal_pressure,
            steam_pull_capacity: 0,
            fuel: FuelRod::Uranium,
        }
    }

    /// Bounds every cell keeps across the session: insertion and the two
    /// levels are fractions, together the levels fit the cell, and the
    /// pressure never drops below the baseline.
    pub open spec fn wf(self, cfg: SimulationConfig) -> bool {
        &&& self.control_rod <= SCALE
        &&& self.coolant_level <= SCALE
        &&& self.steam_level <= SCALE
        &&& self.coolant_level + self.steam_level <= SCALE
        &&& self.pressure >= cfg.nominal_pressure
    }
}

/// A coupling between two adjacent fuel-cell sites, carrying the diffused
/// (averaged) copies of reactivity and temperature. `coolant` is set when
/// both endpoints share a valve; it is presentational only.
#[derive(Clone, Copy, Debug)]
pub struct ReactorEdge {
    /// Index of the first endpoint cell.
    pub a: usize,
    /// Index of the second endpoint cell.
    pub b: usize,
    /// Mean of the endpoints' local reactivity.
    pub reactivity: u64,
    /// Mean of the endpoints' temperature.
    pub temperature: u64,
    /// Whether both endpoints belong to the same valve.
    pub coolant: bool,
}

/// An open/closed switch over a fixed group of member cells.
#[derive(Clone, Debug)]
pub struct CoolantValve {
    /// Whether coolant currently passes this valve.
    pub is_open: bool,
    /// Indices of the member cells.
    pub cells: Vec<usize>,
}

/// A coolant loop: a pump power level over a fixed group of valves.
#[derive(Clone, Debug)]
pub struct CoolantCircuit {
    /// Pump power, `0..=SCALE`.
    pub power: u64,
    /// Indices of the member valves.
    pub valves: Vec<usize>,
}

/// Why lattice construction can fail: the parity rule yielded no fuel-cell
/// site, or the cell list does not divide evenly into the configured
/// valve/circuit partition.
#[derive(Clone, Copy, Debug, PartialEq, Eq, Structural)]
pub enum BuildError {
    NoValidCells,
    UnevenPartition,
}

/// The immutable-shape reactor container: grid dimensions, the fuel-cell
/// sites in enumeration order with their state, the coupling edges, and
/// the valve/circuit ownership maps.
#[derive(Clone, Debug)]
pub struct ReactorCore {
    /// Grid row count.
    pub rows: usize,
    /// Grid column count.
    pub columns: usize,
    /// The valid (fuel-cell) positions, in grid enumeration order.
    pub positions: Vec<Position>,
    /// Cell state, parallel to `positions`.
    pub cells: Vec<ReactorCell>,
    /// Coupling edges, one per unordered pair of adjacent cells.
    pub edges: Vec<ReactorEdge>,
    /// Coolant valves over disjoint groups of cells.
    pub valves: Vec<CoolantValve>,
    /// Coolant circuits over disjoint groups of valves.
    pub circuits: Vec<CoolantCircuit>,
    /// For each cell, the valve that owns it.
    pub valve_of: Vec<usize>,
    /// For each valve, the circuit that owns it.
    pub circuit_of: Vec<usize>,
}

impl ReactorCore {
    /// Number of fuel cells.
    pub open spec fn n(self) -> nat {
        self.positions@.len()
    }

    /// One edge's structural soundness: endpoints are distinct in-range
    /// cells at adjacent positions.
    pub open spec fn edge_ok(self, e: ReactorEdge) -> bool {
        &&& e.a < self.n()
        &&& e.b < self.n()
        &&& e.a != e.b
        &&& adjacent(self.positions@[e.a as int], self.positions@[e.b as int])
    }

    /// One valve's soundness: every member cell is in range and names this
    /// valve as its owner, so no cell belongs to two valves.
    pub open spec fn valve_ok(self, v: int) -> bool {
        forall|k: int|
            0 <= k < self.valves@[v].cells@.len() ==> {
                let ci = #[trigger] self.valves@[v].cells@[k];
                &&& ci < self.n()
                &&& self.valve_of@[ci as int] == v
            }
    }

    /// One circuit's soundness: every member valve is in range and names
    /// this circuit as its owner, so each valve has exactly one circuit.
    pub open spec fn circuit_ok(self, c: int) -> bool {
        forall|j: int|
            0 <= j < self.circuits@[c].valves@.len() ==> {
                let vi = #[trigger] self.circuits@[c].valves@[j];
                &&& vi < self.valves@.len()
                &&& self.circuit_of@[vi as int] == c
            }
    }

    /// Whether valve `v`'s member list names cell `i`.
    pub open spec fn valve_contains(self, v: int, i: int) -> bool {
        exists|k: int| 0 <= k < self.valves@[v].cells@.len() && self.valves@[v].cells@[k] == i
    }

    /// Whether circuit `c`'s member list names valve `v`.
    pub open spec fn circuit_contains(self, c: int, v: int) -> bool {
        exists|j: int| 0 <= j < self.circuits@[c].valves@.len() && self.circuits@[c].valves@[j] == v
    }

    /// The structural invariant: the grid is modest, parallel arrays agree
    /// in length, every position is a valid fuel-cell site at small
    /// coordinates, every edge couples adjacent cells, and the
    /// valve/circuit ownership maps are consistent.
    pub open spec fn graph_wf(self) -> bool {
        &&& self.rows <= 100
        &&& self.columns <= 100
        &&& self.n() <= 10_000
        &&& forall|v: int|
            0 <= v < self.valves@.len() ==> (#[trigger] self.valves@[v]).cells@.len() <= 10_000
        &&& forall|c: int|
            0 <= c < self.circuits@.len() ==> (#[trigger] self.circuits@[c]).valves@.len() <= 10_000
        &&& self.cells@.len() == self.n()
        &&& self.valve_of@.len() == self.n()
        &&& self.circuit_of@.len() == self.valves@.len()
        &&& forall|i: int|
            0 <= i < self.n() ==> (#[trigger] self.positions@[i]).is_valid_spec()
        &&& forall|i: int|
            0 <= i < self.n() ==> {
                let p = #[trigger] self.positions@[i];
                -100 <= p.x <= 100 && -100 <= p.y <= 100
            }
        &&& forall|e: int|
            0 <= e < self.edges@.len() ==> self.edge_ok(#[trigger] self.edges@[e])
        &&& forall|i: int|
            0 <= i < self.n() ==> (#[trigger] self.valve_of@[i]) < self.valves@.len()
        &&& forall|v: int|
            0 <= v < self.valves@.len() ==> (#[trigger] self.circuit_of@[v]) < self.circuits@.len()
        &&& forall|v: int| 0 <= v < self.valves@.len() ==> #[trigger] self.valve_ok(v)
        &&& forall|c: int| 0 <= c < self.circuits@.len() ==> #[trigger] self.circuit_ok(c)
        &&& forall|i: int|
            0 <= i < self.n() ==> self.valve_contains((#[trigger] self.valve_of@[i]) as int, i)
        &&& forall|v: int|
            0 <= v < self.valves@.len() ==> self.circuit_contains(
                (#[trigger] self.circuit_of@[v]) as int,
                v,
            )
        &&& distinct_pairs(self.edges@, self.positions@)
    }

    /// The value bounds: every cell keeps its bounds and every circuit's
    /// power is a fraction.
    pub open spec fn state_wf(self, cfg: SimulationConfig) -> bool {
        &&& forall|i: int|
            0 <= i < self.n() ==> (#[trigger] self.cells@[i]).wf(cfg)
        &&& forall|c: int|
            0 <= c < self.circuits@.len() ==> (#[trigger] self.circuits@[c]).power <= SCALE
    }

    /// The whole invariant of a running core.
    pub open spec fn wf(self, cfg: SimulationConfig) -> bool {
        self.graph_wf() && self.state_wf(cfg)
    }

    /// Whether edge `e` couples the cells at `from` and `to`, in either order.
    pub open spec fn edge_connects(self, e: ReactorEdge, from: Position, to: Position) -> bool {
        &&& e.a < self.n()
        &&& e.b < self.n()
        &&& {
            ||| (self.positions@[e.a as int] == from && self.positions@[e.b as int] == to)
            ||| (self.positions@[e.a as int] == to && self.positions@[e.b as int] == from)
        }
    }

    /// Whether some edge joins the cells at `p` and `q`.
    pub open spec fn has_edge_between(self, p: Position, q: Position) -> bool {
        pair_connected(self.edges@, self.positions@, p, q)
    }

    /// The index of the edge joining `p` and `q`; meaningful only when
    /// such an edge exists (and then unique, since no two edges join the
    /// same pair).
    pub open spec fn edge_index_between(self, p: Position, q: Position) -> int {
        choose|e: int|
            0 <= e < self.edges@.len() && connects_pair(#[trigger] self.edges@[e], self.positions@, p, q)
    }

    /// The reactivity carried by the edge joining `p` and `q`, or zero
    /// when no such edge exists (a missing neighbour contributes nothing).
    pub open spec fn edge_reactivity_between(self, p: Position, q: Position) -> int {
        if self.has_edge_between(p, q) {
            self.edges@[self.edge_index_between(p, q)].reactivity as int
        } else {
            0
        }
    }

    /// The temperature carried by the edge joining `p` and `q`, or the
    /// given default when no such edge exists.
    pub open spec fn edge_temperature_between(self, p: Position, q: Position, default: int) -> int {
        if self.has_edge_between(p, q) {
            self.edges@[self.edge_index_between(p, q)].temperature as int
        } else {
            default
        }
    }

    /// Under the invariant, at most one edge joins a given pair, so any
    /// edge that joins `{p, q}` is the one `edge_index_between` picks.
    pub proof fn lemma_edge_unique(self, e: int, p: Position, q: Position)
        requires
            distinct_pairs(self.edges@, self.positions@),
            0 <= e < self.edges@.len(),
            connects_pair(self.edges@[e], self.positions@, p, q),
        ensures
            self.has_edge_between(p, q),
            e == self.edge_index_between(p, q),
    {
        assert(pair_connected(self.edges@, self.positions@, p, q));
        let idx = self.edge_index_between(p, q);
        if e != idx {
            let ia = self.positions@[self.edges@[idx].a as int];
            let ib = self.positions@[self.edges@[idx].b as int];
            assert((ia == p && ib == q) || (ia == q && ib == p));
            assert(connects_pair(self.edges@[e], self.positions@, ia, ib));
            assert(!connects_pair(self.edges@[e], self.positions@, ia, ib));
        }
    }

    /// Index of the cell at the given position, if one exists.
    pub fn find_cell(&self, pos: Position) -> (r: Option<usize>)
        ensures
            match r {
                Some(i) => i < self.n() && self.positions@[i as int] == pos,
                None => forall|i: int| 0 <= i < self.n() ==> self.positions@[i] != pos,
            },
    {
        let mut i: usize = 0;
        while i < self.positions.len()
            invariant
                i <= self.positions@.len(),
                forall|k: int| 0 <= k < i ==> self.positions@[k] != pos,
            decreases self.positions@.len() - i,
        {
            if self.positions[i] == pos {
                return Some(i);
            }
            i = i + 1;
        }
        None
    }

    /// Index of the edge joining the cells at `from` and `to`, if any;
    /// the unordered pair is looked up in both orders.
    pub fn find_edge(&self, from: Position, to: Position) -> (r: Option<usize>)
        ensures
            match r {
                Some(e) => e < self.edges@.len() && self.edge_connects(self.edges@[e as int], from, to),
                None => forall|e: int|
                    0 <= e < self.edges@.len() ==> !self.edge_connects(#[trigger] self.edges@[e], from, to),
            },
    {
        let mut e: usize = 0;
        while e < self.edges.len()
            invariant
                e <= self.edges@.len(),
                forall|k: int| 0 <= k < e ==> !self.edge_connects(#[trigger] self.edges@[k], from, to),
            decreases self.edges@.len() - e,
        {
            let edge = self.edges[e];
            if edge.a < self.positions.len() && edge.b < self.positions.len() {
                let pa = self.positions[edge.a];
                let pb = self.positions[edge.b];
                if (pa == from && pb == to) || (pa == to && pb == from) {
                    return Some(e);
                }
            }
            e = e + 1;
        }
        None
    }
}

/// The diagonal neighbour of `p` at offsets `dx`, `dy` (each `1` or `-1`).
pub open spec fn diag(p: Position, dx: int, dy: int) -> Position {
    Position { x: (p.x + dx) as i32, y: (p.y + dy) as i32 }
}

/// The per-tick stages change cell and edge attribute values but never the
/// lattice's shape: dimensions, positions, edge endpoints and coolant
/// flags, valve and circuit membership, and the ownership maps all stay.
pub open spec fn same_shape(a: ReactorCore, b: ReactorCore) -> bool {
    &&& b.rows == a.rows
    &&& b.columns == a.columns
    &&& b.positions@ == a.positions@
    &&& b.valve_of@ == a.valve_of@
    &&& b.circuit_of@ == a.circuit_of@
    &&& b.cells@.len() == a.cells@.len()
    &&& b.edges@.len() == a.edges@.len()
    &&& forall|e: int|
        0 <= e < a.edges@.len() ==> {
            &&& (#[trigger] b.edges@[e]).a == a.edges@[e].a
            &&& b.edges@[e].b == a.edges@[e].b
            &&& b.edges@[e].coolant == a.edges@[e].coolant
        }
    &&& b.valves@.len() == a.valves@.len()
    &&& forall|v: int|
        0 <= v < a.valves@.len() ==> (#[trigger] b.valves@[v]).cells@ == a.valves@[v].cells@
    &&& b.circuits@.len() == a.circuits@.len()
    &&& forall|c: int|
        0 <= c < a.circuits@.len() ==> (#[trigger] b.circuits@[c]).valves@ == a.circuits@[c].valves@
}

/// Two cores whose positions and edge endpoints agree find the same edge
/// (or none) between any pair of positions.
pub proof fn lemma_edge_lookup_transfer(a: ReactorCore, b: ReactorCore, p: Position, q: Position)
    requires
        b.positions@ == a.positions@,
        b.edges@.len() == a.edges@.len(),
        forall|e: int|
            0 <= e < a.edges@.len() ==> (#[trigger] b.edges@[e]).a == a.edges@[e].a
                && b.edges@[e].b == a.edges@[e].b,
        distinct_pairs(a.edges@, a.positions@),
        distinct_pairs(b.edges@, b.positions@),
    ensures
        b.has_edge_between(p, q) == a.has_edge_between(p, q),
        a.has_edge_between(p, q) ==> b.edge_index_between(p, q) == a.edge_index_between(p, q),
{
    if a.has_edge_between(p, q) {
        let ia = a.edge_index_between(p, q);
        assert(connects_pair(a.edges@[ia], a.positions@, p, q));
        assert(connects_pair(b.edges@[ia], b.positions@, p, q));
        b.lemma_edge_unique(ia, p, q);
    }
    if b.has_edge_between(p, q) {
        let ib = b.edge_index_between(p, q);
        assert(connects_pair(b.edges@[ib], b.positions@, p, q));
        assert(connects_pair(a.edges@[ib], a.positions@, p, q));
        a.lemma_edge_unique(ib, p, q);
    }
}

/// Shape preservation composes across consecutive stages.
pub proof fn lemma_same_shape_trans(a: ReactorCore, b: ReactorCore, c: ReactorCore)
    requires
        same_shape(a, b),
        same_shape(b, c),
    ensures
        same_shape(a, c),
{
    assert forall|e: int| 0 <= e < a.edges@.len() implies {
        &&& (#[trigger] c.edges@[e]).a == a.edges@[e].a
        &&& c.edges@[e].b == a.edges@[e].b
        &&& c.edges@[e].coolant == a.edges@[e].coolant
    } by {
        assert(b.edges@[e].a == a.edges@[e].a);
    }
    assert forall|v: int|
        0 <= v < a.valves@.len() implies (#[trigger] c.valves@[v]).cells@ == a.valves@[v].cells@ by {
        assert(b.valves@[v].cells@ == a.valves@[v].cells@);
    }
    assert forall|w: int|
        0 <= w < a.circuits@.len() implies (#[trigger] c.circuits@[w]).valves@
            == a.circuits@[w].valves@ by {
        assert(b.circuits@[w].valves@ == a.circuits@[w].valves@);
    }
}

/// A shape-preserving change keeps the structural invariant.
pub proof fn lemma_same_shape_graph_wf(a: ReactorCore, b: ReactorCore)
    requires
        a.graph_wf(),
        same_shape(a, b),
    ensures
        b.graph_wf(),
{
    assert forall|e: int| 0 <= e < b.edges@.len() implies b.edge_ok(#[trigger] b.edges@[e]) by {
        assert(a.edge_ok(a.edges@[e]));
    }
    assert forall|v: int| 0 <= v < b.valves@.len() implies #[trigger] b.valve_ok(v) by {
        assert(a.valve_ok(v));
        assert(b.valves@[v].cells@ == a.valves@[v].cells@);
    }
    assert forall|c: int| 0 <= c < b.circuits@.len() implies #[trigger] b.circuit_ok(c) by {
        assert(a.circuit_ok(c));
        assert(b.circuits@[c].valves@ == a.circuits@[c].valves@);
    }
    assert forall|i: int|
        0 <= i < b.n() implies b.valve_contains((#[trigger] b.valve_of@[i]) as int, i) by {
        let v = a.valve_of@[i] as int;
        assert(a.valve_contains(v, i));
        let k = choose|k: int|
            0 <= k < a.valves@[v].cells@.len() && a.valves@[v].cells@[k] == i;
        assert(b.valves@[v].cells@ == a.valves@[v].cells@);
        assert(b.valves@[v].cells@[k] == i);
    }
    assert forall|v: int|
        0 <= v < b.valves@.len() implies b.circuit_contains(
        (#[trigger] b.circuit_of@[v]) as int,
        v,
    ) by {
        let c = a.circuit_of@[v] as int;
        assert(a.circuit_contains(c, v));
        let j = choose|j: int|
            0 <= j < a.circuits@[c].valves@.len() && a.circuits@[c].valves@[j] == v;
        assert(b.circuits@[c].valves@ == a.circuits@[c].valves@);
        assert(b.circuits@[c].valves@[j] == v);
    }
    assert forall|e1: int, e2: int|
        0 <= e1 < b.edges@.len() && 0 <= e2 < b.edges@.len() && e1 != e2 implies !connects_pair(
        #[trigger] b.edges@[e1],
        b.positions@,
        b.positions@[(#[trigger] b.edges@[e2]).a as int],
        b.positions@[b.edges@[e2].b as int],
    ) by {
        assert(!connects_pair(
            a.edges@[e1],
            a.positions@,
            a.positions@[a.edges@[e2].a as int],
            a.positions@[a.edges@[e2].b as int],
        ));
    }
}

} // verus!
