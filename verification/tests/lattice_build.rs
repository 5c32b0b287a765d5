use reactor_sim::builder::grid_positions;
use reactor_sim::config::SimulationConfig;
use reactor_sim::lattice::{BuildError, Position, ReactorCore};

fn reference_core() -> ReactorCore {
    let cfg = SimulationConfig::default();
    ReactorCore::new(&cfg, 7, 7, 3, 4, 2).unwrap()
}

#[test]
fn parity_rule() {
    assert!(Position::new(1, 0).is_valid());
    assert!(Position::new(0, 1).is_valid());
    assert!(!Position::new(0, 0).is_valid());
    assert!(!Position::new(1, 1).is_valid());
    assert!(Position::new(-3, -2).is_valid());
    assert!(!Position::new(-3, -3).is_valid());
    assert!(Position::new(-2, -3).is_valid());
}

#[test]
fn neighbours_are_diagonal() {
    let p = Position::new(0, 1);
    let nb = p.neighbours();
    assert_eq!((nb[0].x, nb[0].y), (-1, 0));
    assert_eq!((nb[1].x, nb[1].y), (-1, 2));
    assert_eq!((nb[2].x, nb[2].y), (1, 0));
    assert_eq!((nb[3].x, nb[3].y), (1, 2));
}

#[test]
fn reference_grid_has_24_cells() {
    let core = reference_core();
    assert_eq!(core.cells.len(), 24);
    assert_eq!(core.positions.len(), 24);
    assert_eq!(grid_positions(7, 7).len(), 49);
    assert_eq!(core.iter_all_positions().len(), 49);
    assert_eq!(core.iter_cell_positions().len(), 24);
    assert_eq!(core.iter_control_positions().len(), 25);
}

#[test]
fn valve_and_circuit_partition() {
    // 24 cells split into 8 valves of 3 cells, and 2 circuits of 4 valves.
    let core = reference_core();
    assert_eq!(core.valves.len(), 8);
    assert_eq!(core.circuits.len(), 2);
    for (v, valve) in core.valves.iter().enumerate() {
        assert!(!valve.is_open);
        assert_eq!(valve.cells.len(), 3);
        for (k, &cell) in valve.cells.iter().enumerate() {
            assert_eq!(cell, v * 3 + k);
            assert_eq!(core.valve_of[cell], v);
        }
    }
    for (c, circuit) in core.circuits.iter().enumerate() {
        assert_eq!(circuit.valves.len(), 4);
        for (j, &valve) in circuit.valves.iter().enumerate() {
            assert_eq!(valve, c * 4 + j);
            assert_eq!(core.circuit_of[valve], c);
        }
    }
}

#[test]
fn edges_join_adjacent_cells_once() {
    let core = reference_core();
    for e in &core.edges {
        let pa = core.positions[e.a];
        let pb = core.positions[e.b];
        assert_eq!((pa.x - pb.x).abs(), 1);
        assert_eq!((pa.y - pb.y).abs(), 1);
        // The coolant flag marks same-valve couplings.
        assert_eq!(e.coolant, core.valve_of[e.a] == core.valve_of[e.b]);
    }
    for (i, e1) in core.edges.iter().enumerate() {
        for e2 in core.edges.iter().skip(i + 1) {
            let same = (e1.a == e2.a && e1.b == e2.b) || (e1.a == e2.b && e1.b == e2.a);
            assert!(!same);
        }
    }
}

#[test]
fn find_edge_looks_up_both_orders() {
    let core = reference_core();
    let a = Position::new(-2, -3);
    let b = Position::new(-3, -2);
    assert!(core.find_edge(a, b).is_some());
    assert!(core.find_edge(b, a).is_some());
    assert_eq!(core.find_edge(a, b), core.find_edge(b, a));
    // Not adjacent: no edge.
    assert!(core.find_edge(a, Position::new(0, 1)).is_none());
}

#[test]
fn no_valid_cells_is_fatal() {
    let cfg = SimulationConfig::default();
    match ReactorCore::new(&cfg, 1, 1, 1, 1, 1) {
        Err(BuildError::NoValidCells) => {},
        _ => panic!("a 1x1 grid has no valid-parity site"),
    }
}

#[test]
fn uneven_partition_is_fatal() {
    let cfg = SimulationConfig::default();
    match ReactorCore::new(&cfg, 7, 7, 5, 4, 2) {
        Err(BuildError::UnevenPartition) => {},
        _ => panic!("24 cells do not divide into 40"),
    }
}

#[test]
fn iter_cells_enumerates_in_order() {
    let core = reference_core();
    let cells = core.iter_cells();
    assert_eq!(cells.len(), 24);
    for (k, (p, i)) in cells.iter().enumerate() {
        assert_eq!(*i, k);
        assert_eq!(*p, core.positions[k]);
    }
}

#[test]
fn iter_all_positions_with_cells_matches_lookup() {
    let core = reference_core();
    let entries = core.iter_all_positions_with_cells();
    assert_eq!(entries.len(), 49);
    let mut found = 0;
    for (p, maybe) in &entries {
        match maybe {
            Some(i) => {
                assert_eq!(core.positions[*i], *p);
                found += 1;
            },
            None => assert!(!p.is_valid()),
        }
    }
    assert_eq!(found, 24);
}
