use reactor_sim::config::SimulationConfig;
use reactor_sim::phase::Phase;
use reactor_sim::power::{
    advance_demand_timers, assess_power, convert_steam_to_power, NextPowerDemand, PowerDemand,
    PowerStatus, TicksWithoutPower,
};
use reactor_sim::reactor::{Command, Reactor};
use reactor_sim::sched::{Simulation, DEFAULT_TIMESTEP_MS};
use reactor_sim::neutron::{Neutron, NeutronParticle};
use reactor_sim::types::{ControlRodMovement, FuelRod, GameOverCause, ParticleCount, WaterFlow};

fn reference_reactor() -> Reactor {
    let cfg = SimulationConfig::default();
    Reactor::new(cfg, 7, 7, 3, 4, 2, DEFAULT_TIMESTEP_MS).unwrap()
}

#[test]
fn phase_cycle_order() {
    // From PowerGeneration, four ticks return to PowerGeneration, and the
    // observed sequence is the fixed rotation.
    assert_eq!(Phase::PowerGeneration.next(), Phase::WaterFlow);
    assert_eq!(Phase::WaterFlow.next(), Phase::NeutronRelease);
    assert_eq!(Phase::NeutronRelease.next(), Phase::SteamVenting);
    assert_eq!(Phase::SteamVenting.next(), Phase::PowerGeneration);

    let mut r = reference_reactor();
    assert_eq!(r.phase, Phase::PowerGeneration);
    let expected = [
        Phase::WaterFlow,
        Phase::NeutronRelease,
        Phase::SteamVenting,
        Phase::PowerGeneration,
    ];
    for p in expected {
        r.tick();
        assert_eq!(r.phase, p);
    }
}

#[test]
fn power_outage_terminates_on_the_21st_shortfall_tick() {
    // With unmet demand on every generation tick, the session ends on the
    // 21st consecutive shortfall, with cause "not enough power" and the
    // power generated so far; and it ends exactly once.
    let mut r = reference_reactor();
    r.demand = PowerDemand(5_000);
    // Generation ticks are every 4th tick, starting with the 1st.
    for tick_no in 1..=80u32 {
        r.tick();
        assert!(r.game_over().is_none(), "ended early at tick {}", tick_no);
    }
    assert_eq!(r.ticks_without_power.0, 20);
    r.tick(); // the 21st generation tick
    let over = r.game_over().expect("termination expected");
    assert_eq!(over.cause, GameOverCause::NotEnoughPower);
    assert_eq!(over.power_generated, r.power_generated);
    // Further ticks change nothing: the event fires exactly once.
    let phase_after = r.phase;
    let counter_after = r.ticks_without_power.0;
    r.tick();
    r.tick();
    assert_eq!(r.game_over().unwrap().cause, GameOverCause::NotEnoughPower);
    assert_eq!(r.phase, phase_after);
    assert_eq!(r.ticks_without_power.0, counter_after);
}

#[test]
fn low_power_warning_before_failure() {
    let mut r = reference_reactor();
    r.demand = PowerDemand(5_000);
    // 6 generation ticks put the counter past the warning threshold of 5.
    for _ in 0..24 {
        r.tick();
    }
    assert_eq!(r.ticks_without_power.0, 6);
    assert!(r.low_power_warning);
    assert!(r.game_over().is_none());
}

#[test]
fn met_demand_resets_the_counter() {
    let mut r = reference_reactor();
    r.demand = PowerDemand(500);
    r.tick(); // unmet: no steam stored
    assert_eq!(r.ticks_without_power.0, 1);
    r.steam_stored = 10_000;
    for _ in 0..4 {
        r.tick();
    }
    // The next generation tick covers the deficit and resets the counter.
    assert_eq!(r.ticks_without_power.0, 0);
    assert!(r.power_generated >= 500);
}

#[test]
fn steam_conversion_bookkeeping() {
    let mut steam = 1000u64;
    let mut power = 0u64;
    let unmet = convert_steam_to_power(500, 100, &mut steam, &mut power);
    assert!(!unmet);
    assert_eq!(steam, 400);
    assert_eq!(power, 600);

    let mut steam = 100u64;
    let mut power = 0u64;
    let unmet = convert_steam_to_power(500, 100, &mut steam, &mut power);
    assert!(unmet);
    assert_eq!(steam, 0);
    assert_eq!(power, 100);
}

#[test]
fn power_thresholds() {
    let cfg = SimulationConfig::default();
    assert_eq!(assess_power(&TicksWithoutPower(0), &cfg), PowerStatus::Normal);
    assert_eq!(assess_power(&TicksWithoutPower(5), &cfg), PowerStatus::Normal);
    assert_eq!(assess_power(&TicksWithoutPower(6), &cfg), PowerStatus::LowPower);
    assert_eq!(assess_power(&TicksWithoutPower(20), &cfg), PowerStatus::LowPower);
    assert_eq!(assess_power(&TicksWithoutPower(21), &cfg), PowerStatus::Failed);
}

#[test]
fn tutorial_grace_delays_the_ramp() {
    let cfg = SimulationConfig::default();
    let mut next = NextPowerDemand::new(&cfg);
    let mut demand = PowerDemand(0);
    advance_demand_timers(&mut next, &mut demand, &cfg, 5_000);
    assert_eq!(next.tutorial_remaining_ms, 5_000);
    assert_eq!(demand.0, 0);
    advance_demand_timers(&mut next, &mut demand, &cfg, 5_000);
    assert_eq!(next.tutorial_remaining_ms, 0);
    // The demand timer completed this frame: one delta is added.
    assert_eq!(demand.0, 1_000);
    assert_eq!(next.demand_elapsed_ms, 0);
    assert_eq!(next.delta, 1_000);
    assert_eq!(next.rate_elapsed_ms, 5_000);
    // Another 5 s completes the rate timer: the delta itself grows.
    advance_demand_timers(&mut next, &mut demand, &cfg, 5_000);
    assert_eq!(next.delta, 2_000);
    assert_eq!(demand.0, 2_000);
}

#[test]
fn abandoning_carries_power_total() {
    let mut r = reference_reactor();
    r.power_generated = 4321;
    r.abandon();
    let over = r.game_over().unwrap();
    assert_eq!(over.cause, GameOverCause::PlayerAbandoned);
    assert_eq!(over.power_generated, 4321);
    // A second request changes nothing.
    r.abandon();
    assert_eq!(r.game_over().unwrap().cause, GameOverCause::PlayerAbandoned);
}

#[test]
fn explosion_on_overpressure() {
    let mut r = reference_reactor();
    // A cell already holding steam under extreme heat blows past the
    // explosion threshold when the venting phase recomputes pressure.
    r.core.cells[3].temperature = 100_000_000;
    r.core.cells[3].steam_level = 900;
    r.core.cells[3].coolant_level = 100;
    r.power_generated = 77;
    r.tick(); // PowerGeneration
    r.tick(); // WaterFlow
    r.tick(); // NeutronRelease
    r.tick(); // SteamVenting: pressure check fires
    let over = r.game_over().expect("explosion expected");
    assert_eq!(over.cause, GameOverCause::Explosion);
    assert_eq!(over.power_generated, 77);
}

#[test]
fn frame_driver_fires_whole_ticks() {
    let mut r = reference_reactor();
    let fired = r.advance_frame(1_800);
    assert_eq!(fired, 3);
    assert_eq!(r.sim.overstep_ms, 300);
    assert_eq!(r.phase, Phase::SteamVenting);
    let fired = r.advance_frame(100);
    assert_eq!(fired, 0);
    assert_eq!(r.sim.overstep_ms, 400);
}

#[test]
fn water_store_refills_and_pours() {
    let mut r = reference_reactor();
    r.tick(); // PowerGeneration
    r.tick(); // WaterFlow: 200 units created
    assert_eq!(r.water_stored, 200);
    r.add_water_to_cell(0);
    // 3 units poured at 0.05 each: 0.15 of coolant.
    assert_eq!(r.water_stored, 197);
    assert_eq!(r.core.cells[0].coolant_level, 150);
}

#[test]
fn water_flow_rate_bounds() {
    let mut w = WaterFlow::new();
    assert_eq!(w.get(), 3);
    w.decrease();
    w.decrease();
    assert_eq!(w.get(), 1);
    w.decrease();
    assert_eq!(w.get(), 1);
    for _ in 0..100 {
        w.increase();
    }
    assert_eq!(w.get(), 50);
}

#[test]
fn particle_count_saturates_at_zero() {
    let mut p = ParticleCount::new();
    p.increment(5);
    assert_eq!(p.get(), 5);
    p.decrement(2);
    assert_eq!(p.get(), 3);
    p.decrement(10);
    assert_eq!(p.get(), 0);
}

#[test]
fn rod_movement_reverses() {
    let mut m = ControlRodMovement::Up;
    m.reverse();
    assert_eq!(m, ControlRodMovement::Down);
    m.reverse();
    assert_eq!(m, ControlRodMovement::Up);
}

#[test]
fn fuel_draw_respects_certainties() {
    assert_eq!(FuelRod::random(0), FuelRod::Xenon);
    assert_eq!(FuelRod::random(1000), FuelRod::Uranium);
}

#[test]
fn rod_commands() {
    let mut r = reference_reactor();
    r.move_control_rod(0, -400);
    assert_eq!(r.core.cells[0].control_rod, 600);
    r.move_control_rod(0, 900);
    assert_eq!(r.core.cells[0].control_rod, 1000);
    r.move_control_rod(0, i64::MIN);
    assert_eq!(r.core.cells[0].control_rod, 0);

    // A click on a still, mostly-raised rod starts it moving up.
    r.click_control_rod(0);
    assert_eq!(r.core.cells[0].rod_movement, Some(ControlRodMovement::Up));
    r.click_control_rod(0);
    assert_eq!(r.core.cells[0].rod_movement, Some(ControlRodMovement::Down));
    // Rod travel: 0.1 per second.
    r.core.cells[0].rod_movement = Some(ControlRodMovement::Up);
    r.advance_rods(2_000);
    assert_eq!(r.core.cells[0].control_rod, 200);
    r.advance_rods(10_000);
    assert_eq!(r.core.cells[0].control_rod, 1000);
    assert_eq!(r.core.cells[0].rod_movement, None);
}

#[test]
fn valve_and_circuit_commands() {
    let mut r = reference_reactor();
    assert!(!r.core.valves[2].is_open);
    r.toggle_valve(2);
    assert!(r.core.valves[2].is_open);
    r.toggle_valve(2);
    assert!(!r.core.valves[2].is_open);
    r.set_circuit_power(0, 5_000);
    assert_eq!(r.core.circuits[0].power, 1000);
    r.set_circuit_power(0, 250);
    assert_eq!(r.core.circuits[0].power, 250);
}

#[test]
fn randomize_fuel_only_touches_fuel() {
    let mut r = reference_reactor();
    let before = r.core.cells.clone();
    r.randomize_fuel();
    for (b, a) in before.iter().zip(r.core.cells.iter()) {
        assert_eq!(b.control_rod, a.control_rod);
        assert_eq!(b.temperature, a.temperature);
        assert_eq!(b.coolant_level, a.coolant_level);
    }
}

#[test]
fn reactor_observers() {
    let mut r = reference_reactor();
    assert_eq!(r.cell_count(), 24);
    assert_eq!(r.cell_insertion(0), 1000);
    assert_eq!(r.cell_temperature(0), 25_000);
    assert_eq!(r.cell_pressure(0), 1000);
    assert_eq!(r.cell_reactivity(0), 0);
    assert_eq!(r.neutron_count(), 0);
    r.tick();
    r.tick();
    r.tick(); // NeutronRelease may spawn; the count observer tracks it
    assert_eq!(r.neutron_count(), r.neutrons.len());
    assert_eq!(r.cell(0).fuel, r.core.cells[0].fuel);
}

#[test]
fn command_queue_drains_in_order_and_skips_bad_indices() {
    let mut r = reference_reactor();
    let commands = vec![
        Command::MoveControlRod { cell: 0, delta: -400 },
        Command::ToggleValve { valve: 1 },
        Command::SetCircuitPower { circuit: 1, power: 300 },
        Command::MoveControlRod { cell: 999, delta: -400 }, // no such cell: skipped
        Command::ToggleValve { valve: 999 },                // no such valve: skipped
        Command::AddWater { cell: 2 },
    ];
    r.apply_commands(&commands);
    assert_eq!(r.core.cells[0].control_rod, 600);
    assert!(r.core.valves[1].is_open);
    assert_eq!(r.core.circuits[1].power, 300);
    assert!(r.game_over().is_none());
    r.apply_commands(&vec![Command::Abandon]);
    assert_eq!(r.game_over().unwrap().cause, GameOverCause::PlayerAbandoned);
}

#[test]
fn default_values_match_the_reference_session() {
    let sim = Simulation::default();
    assert_eq!(sim.timestep_ms, 500);
    assert_eq!(sim.overstep_ms, 0);
    assert_eq!(Phase::default(), Phase::PowerGeneration);
    assert_eq!(WaterFlow::default().get(), 3);
    assert_eq!(ParticleCount::default().get(), 0);
}

#[test]
fn rod_absorption_endpoints_at_session_level() {
    let mut r = reference_reactor();
    r.neutrons.push(NeutronParticle {
        state: Neutron::Active,
        origin: 5,
        angle: 0,
        distance: 0,
        expiry_ms: 45_000,
    });
    // A fully raised rod never absorbs; a fully inserted one always does.
    r.move_control_rod(0, -1000);
    assert!(!r.collide_with_rod(0, 0));
    assert_eq!(r.neutron_count(), 1);
    r.move_control_rod(0, 1000);
    assert!(r.collide_with_rod(0, 0));
    assert_eq!(r.neutron_count(), 0);
}
