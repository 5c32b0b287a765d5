use reactor_sim::config::SimulationConfig;
use reactor_sim::lattice::ReactorCore;
use reactor_sim::neutron::{
    absorb_at_rod, advance_neutrons, mark_out_of_bounds, resolve_fuel_hit, spawn_neutron,
    CollisionOutcome, Neutron, NeutronParticle,
};
use reactor_sim::types::FuelRod;

fn reference_core() -> ReactorCore {
    let cfg = SimulationConfig::default();
    ReactorCore::new(&cfg, 7, 7, 3, 4, 2).unwrap()
}

fn one_neutron(origin: usize, angle: u64) -> Vec<NeutronParticle> {
    let mut v = Vec::new();
    spawn_neutron(&mut v, origin, angle, 45_000);
    v
}

#[test]
fn fission_branching() {
    // A neutron hitting a Uranium cell (not its origin) is removed and
    // exactly 3 neutrons spawn, fanned out a tenth of a turn apart.
    let mut core = reference_core();
    let mut v = one_neutron(1, 250_000);
    let outcome = resolve_fuel_hit(&mut v, 0, &mut core, 0, 45_000);
    assert_eq!(outcome, CollisionOutcome::Fission);
    assert_eq!(v.len(), 3);
    assert_eq!(v[0].angle, 150_000);
    assert_eq!(v[1].angle, 250_000);
    assert_eq!(v[2].angle, 350_000);
    for n in &v {
        assert_eq!(n.origin, 0);
        assert_eq!(n.state, Neutron::Active);
        assert_eq!(n.distance, 0);
    }
    assert_eq!(core.cells[0].fuel, FuelRod::Uranium);
}

#[test]
fn fission_fan_wraps_around() {
    let mut core = reference_core();
    let mut v = one_neutron(1, 50_000);
    resolve_fuel_hit(&mut v, 0, &mut core, 0, 45_000);
    assert_eq!(v[0].angle, 950_000);
    assert_eq!(v[1].angle, 50_000);
    assert_eq!(v[2].angle, 150_000);
}

#[test]
fn xenon_burn_off() {
    // A neutron hitting a Xenon cell converts it to Uranium, is removed,
    // and spawns nothing.
    let mut core = reference_core();
    core.cells[0].fuel = FuelRod::Xenon;
    let mut v = one_neutron(1, 0);
    let outcome = resolve_fuel_hit(&mut v, 0, &mut core, 0, 45_000);
    assert_eq!(outcome, CollisionOutcome::BurnOff);
    assert_eq!(v.len(), 0);
    assert_eq!(core.cells[0].fuel, FuelRod::Uranium);
}

#[test]
fn own_origin_is_ignored() {
    let mut core = reference_core();
    let mut v = one_neutron(0, 0);
    let outcome = resolve_fuel_hit(&mut v, 0, &mut core, 0, 45_000);
    assert_eq!(outcome, CollisionOutcome::Ignored);
    assert_eq!(v.len(), 1);
    assert_eq!(core.cells[0].fuel, FuelRod::Uranium);
}

#[test]
fn rod_absorption_follows_insertion() {
    // Absorbed exactly when the draw falls below the insertion.
    let mut v = one_neutron(0, 0);
    assert!(!absorb_at_rod(&mut v, 0, 300, 300));
    assert_eq!(v.len(), 1);
    assert!(absorb_at_rod(&mut v, 0, 301, 300));
    assert_eq!(v.len(), 0);
}

#[test]
fn neutron_advances_outward() {
    let cfg = SimulationConfig::default();
    let mut v = one_neutron(0, 0);
    advance_neutrons(&mut v, &cfg, 500);
    // 65 cell widths per second, for half a second.
    assert_eq!(v[0].distance, 32_500);
    assert_eq!(v[0].expiry_ms, 44_500);
    assert_eq!(v[0].state, Neutron::Active);
}

#[test]
fn two_stage_removal() {
    // Expiry turns a neutron Dying; it fades for a grace period before
    // the sweep removes it.
    let cfg = SimulationConfig::default();
    let mut v = Vec::new();
    spawn_neutron(&mut v, 0, 0, 300);
    advance_neutrons(&mut v, &cfg, 500);
    assert_eq!(v.len(), 1);
    assert_eq!(v[0].state, Neutron::Dying);
    assert_eq!(v[0].expiry_ms, cfg.neutron_fade_ms);
    advance_neutrons(&mut v, &cfg, 500);
    assert_eq!(v.len(), 0);
}

#[test]
fn out_of_bounds_starts_fade() {
    let mut v = one_neutron(0, 0);
    mark_out_of_bounds(&mut v, 0, 500);
    assert_eq!(v[0].state, Neutron::Dying);
    assert_eq!(v[0].expiry_ms, 500);
    // A second notice changes nothing.
    mark_out_of_bounds(&mut v, 0, 900);
    assert_eq!(v[0].expiry_ms, 500);
}
