use reactor_sim::sched::{Simulation, DEFAULT_TIMESTEP_MS};

#[test]
fn accumulator_conservation_single_frame() {
    // With a 500 ms timestep, a single 1.8 s frame fires exactly 3 ticks
    // and retains 0.3 s.
    let mut sim = Simulation::new(DEFAULT_TIMESTEP_MS);
    sim.accumulate(1800);
    let fired = sim.drain();
    assert_eq!(fired, 3);
    assert_eq!(sim.overstep_ms, 300);
}

#[test]
fn accumulator_conservation_many_frames() {
    // Over any frame sequence, total ticks and leftover depend only on
    // the total time.
    let mut sim = Simulation::new(500);
    let deltas = [16u64, 700, 3, 481, 900, 0, 650];
    let mut fired_total = 0u64;
    for d in deltas {
        sim.accumulate(d);
        fired_total += sim.drain();
    }
    let total: u64 = deltas.iter().sum();
    assert_eq!(fired_total, total / 500);
    assert_eq!(sim.overstep_ms, total % 500);
}

#[test]
fn expend_consumes_one_timestep() {
    let mut sim = Simulation::new(500);
    sim.accumulate(1100);
    assert!(sim.expend());
    assert_eq!(sim.overstep_ms, 600);
    assert!(sim.expend());
    assert_eq!(sim.overstep_ms, 100);
    assert!(!sim.expend());
    assert_eq!(sim.overstep_ms, 100);
}

#[test]
fn no_delta_no_ticks() {
    // While paused, no time is fed, so nothing fires and nothing decays.
    let mut sim = Simulation::new(500);
    sim.accumulate(499);
    assert_eq!(sim.drain(), 0);
    assert_eq!(sim.overstep_ms, 499);
    assert_eq!(sim.drain(), 0);
    assert_eq!(sim.overstep_ms, 499);
}
