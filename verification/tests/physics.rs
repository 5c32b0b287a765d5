use reactor_sim::config::SimulationConfig;
use reactor_sim::coolant::{cell_steam_step, update_coolant_flow, update_steam_pull_capacity};
use reactor_sim::fixed::{fp_div, fp_mul, min64, nth_root, pow_le, pow_small, sat_add, sat_sub};
use reactor_sim::lattice::{Position, ReactorCell};
use reactor_sim::reactor::Reactor;
use reactor_sim::sched::DEFAULT_TIMESTEP_MS;

fn reference_reactor() -> Reactor {
    let cfg = SimulationConfig::default();
    Reactor::new(cfg, 7, 7, 3, 4, 2, DEFAULT_TIMESTEP_MS).unwrap()
}

#[test]
fn fixed_point_arithmetic() {
    assert_eq!(fp_mul(1500, 2000), 3000);
    assert_eq!(fp_mul(0, u64::MAX), 0);
    assert_eq!(fp_div(1, 3), 333);
    assert_eq!(fp_div(1000, 1000), 1000);
    assert_eq!(sat_add(u64::MAX, 1), u64::MAX);
    assert_eq!(sat_sub(3, 5), 0);
    assert_eq!(min64(4, 9), 4);
}

#[test]
fn integer_roots_and_powers() {
    assert_eq!(pow_small(10, 3), 1000);
    assert_eq!(pow_small(1000, 2), 1_000_000);
    assert!(pow_le(2, 10, 1024));
    assert!(!pow_le(2, 10, 1023));
    assert_eq!(nth_root(8, 3, 1000), 2);
    assert_eq!(nth_root(7, 3, 1000), 1);
    assert_eq!(nth_root(0, 5, 1000), 0);
    assert_eq!(nth_root(u128::MAX, 1, 1000), 1000);
}

#[test]
fn reactivity_floor() {
    // A fully inserted rod keeps local reactivity at zero, whatever the
    // coolant level.
    let mut r = reference_reactor();
    r.core.cells[1].coolant_level = 700;
    r.tick();
    assert_eq!(r.core.cells[1].control_rod, 1000);
    assert_eq!(r.core.cells[1].local_reactivity, 0);
}

#[test]
fn raised_rod_full_void_reactivity() {
    // base 1.0, no rod, no coolant: 1.0 * 1.0 * (1 + 1.5) = 2.5.
    let mut r = reference_reactor();
    r.move_control_rod(0, -1000);
    assert_eq!(r.core.cells[0].control_rod, 0);
    r.tick();
    assert_eq!(r.core.cells[0].local_reactivity, 2500);
}

#[test]
fn diffusion_averaging() {
    // The edge joining two cells carries exactly the mean of their local
    // reactivity.
    let mut r = reference_reactor();
    r.move_control_rod(0, -1000);
    r.tick();
    let a = Position::new(-2, -3);
    let b = Position::new(-3, -2);
    let e = r.core.find_edge(a, b).unwrap();
    let la = r.core.cells[0].local_reactivity;
    assert_eq!(la, 2500);
    let other = if r.core.positions[r.core.edges[e].a] == a {
        r.core.edges[e].b
    } else {
        r.core.edges[e].a
    };
    let lb = r.core.cells[other].local_reactivity;
    assert_eq!(lb, 0);
    assert_eq!(r.core.edges[e].reactivity, (la + lb) / 2);
    assert_eq!(r.core.edges[e].reactivity, 1250);
}

#[test]
fn total_reactivity_couples_neighbours() {
    // total = local + 0.2 * (sum of incident edge reactivities).
    let mut r = reference_reactor();
    r.move_control_rod(0, -1000);
    r.tick();
    let cell = &r.core.cells[0];
    let p = Position::new(-2, -3);
    let mut edge_sum: u64 = 0;
    for q in p.neighbours() {
        if let Some(e) = r.core.find_edge(p, q) {
            edge_sum += r.core.edges[e].reactivity;
        }
    }
    assert_eq!(cell.reactivity, cell.local_reactivity + fp_mul(200, edge_sum));
}

#[test]
fn steam_step_exact_scenario() {
    // A hot, half-full cell: boils 0.25 of coolant, fills with steam to
    // the volume cap, vents 0.2, takes 0.1 of inflow, and recomputes the
    // pressure through the 6/5 curve.
    let cfg = SimulationConfig::default();
    let mut c = ReactorCell::new(&cfg);
    c.temperature = 150_000;
    c.coolant_level = 500;
    c.coolant_flow = 100;
    c.steam_pull_capacity = 500;
    cell_steam_step(&mut c, &cfg);
    assert_eq!(c.coolant_level, 350);
    assert_eq!(c.steam_level, 550);
    assert_eq!(c.steam_output, 200);
    assert_eq!(c.pressure, 5620);
    assert_eq!(c.temperature, 150_000);
}

#[test]
fn cold_cell_keeps_nominal_pressure() {
    let cfg = SimulationConfig::default();
    let mut c = ReactorCell::new(&cfg);
    cell_steam_step(&mut c, &cfg);
    assert_eq!(c.coolant_level, 0);
    assert_eq!(c.steam_level, 0);
    assert_eq!(c.steam_output, 0);
    assert_eq!(c.pressure, cfg.nominal_pressure);
}

#[test]
fn coolant_flow_distribution() {
    // One open valve of 3 cells on a full-power circuit: each member
    // gets pump_flow / 3; everyone else gets nothing.
    let mut r = reference_reactor();
    r.toggle_valve(0);
    let cfg = r.config;
    update_coolant_flow(&mut r.core, &cfg);
    for i in 0..3 {
        assert_eq!(r.core.cells[i].coolant_flow, 1000 / 3);
    }
    for i in 3..24 {
        assert_eq!(r.core.cells[i].coolant_flow, 0);
    }
}

#[test]
fn closed_valves_get_no_flow() {
    let mut r = reference_reactor();
    let cfg = r.config;
    update_coolant_flow(&mut r.core, &cfg);
    for c in &r.core.cells {
        assert_eq!(c.coolant_flow, 0);
    }
}

#[test]
fn steam_pull_capacity_reset() {
    let mut r = reference_reactor();
    let cfg = r.config;
    update_steam_pull_capacity(&mut r.core, &cfg);
    for c in &r.core.cells {
        assert_eq!(c.steam_pull_capacity, cfg.steam_pull_capacity);
    }
}

#[test]
fn bounded_resources_over_a_run() {
    // Coolant, steam and pressure stay within their bounds on every tick.
    let mut r = reference_reactor();
    for v in 0..8 {
        r.toggle_valve(v);
    }
    for i in 0..24 {
        r.move_control_rod(i, -1000);
    }
    r.core.cells[5].temperature = 200_000;
    for _ in 0..40 {
        r.tick();
        for c in &r.core.cells {
            assert!(c.coolant_level <= 1000);
            assert!(c.steam_level <= 1000);
            assert!(c.coolant_level + c.steam_level <= 1000);
            assert!(c.pressure >= r.config.nominal_pressure);
        }
    }
}
