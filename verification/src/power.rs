//! Power and failure tracking: the demand ramp with its tutorial grace
//! period, the per-tick conversion of stored steam into generated power,
//! and the consecutive-shortfall counter whose thresholds raise the
//! low-power warning and end the session.

use vstd::prelude::*;
use crate::config::SimulationConfig;
use crate::fixed::{min_spec, min64, sat_add, sat_add_spec, sat_sub, sat_sub_spec};

verus! {

/// Current power demand level.
#[derive(Clone, Copy, Debug, PartialEq, Eq, Structural)]
pub struct PowerDemand(pub u64);

/// Consecutive-tick counter of unmet demand; reset whenever demand is met.
#[derive(Clone, Copy, Debug, PartialEq, Eq, Structural)]
pub struct TicksWithoutPower(pub u64);

/// The demand ramp: its current delta, the one-shot tutorial grace timer
/// that delays all ramping at session start, and the two repeating timers
/// that periodically raise the demand and the delta itself.
#[derive(Clone, Copy, Debug, PartialEq, Eq, Structural)]
pub struct NextPowerDemand {
    /// Amount added to the demand at each demand period.
    pub delta: u64,
    /// Time left of the tutorial grace period.
    pub tutorial_remaining_ms: u64,
    /// Time accumulated toward the next demand increase.
    pub demand_elapsed_ms: u64,
    /// Time accumulated toward the next delta increase.
    pub rate_elapsed_ms: u64,
}

impl NextPowerDemand {
    /// The repeating timers never hold a full period.
    pub open spec fn wf(self, cfg: SimulationConfig) -> bool {
        &&& self.demand_elapsed_ms < cfg.demand_period_ms
        &&& self.rate_elapsed_ms < cfg.demand_rate_period_ms
    }

    /// The ramp state a fresh session starts with.
    pub fn new(cfg: &SimulationConfig) -> (n: NextPowerDemand)
        requires
            cfg.wf(),
        ensures
            n.delta == cfg.initial_demand_delta,
            n.tutorial_remaining_ms == cfg.tutorial_ms,
            n.demand_elapsed_ms == 0,
            n.rate_elapsed_ms == 0,
            n.wf(*cfg),
    {
        NextPowerDemand {
            delta: cfg.initial_demand_delta,
            tutorial_remaining_ms: cfg.tutorial_ms,
            demand_elapsed_ms: 0,
            rate_elapsed_ms: 0,
        }
    }
}

/// Feed wall-clock time into the demand ramp. While the tutorial grace
/// period runs, nothing else advances. Once it has elapsed, the whole
/// frame delta goes to both repeating timers: when the demand timer
/// completes, the current delta is added to the demand once; when the
/// slower rate timer completes, the delta itself grows once — the
/// super-linear demand growth of a long session.
pub fn advance_demand_timers(
    next: &mut NextPowerDemand,
    demand: &mut PowerDemand,
    cfg: &SimulationConfig,
    delta_ms: u64,
)
    requires
        cfg.wf(),
        old(next).wf(*cfg),
        delta_ms <= 1_000_000_000,
    ensures
        final(next).wf(*cfg),
        old(next).tutorial_remaining_ms > delta_ms ==> {
            &&& *final(next) == (NextPowerDemand {
                tutorial_remaining_ms: (old(next).tutorial_remaining_ms - delta_ms) as u64,
                ..*old(next)
            })
            &&& *final(demand) == *old(demand)
        },
        old(next).tutorial_remaining_ms <= delta_ms ==> {
            let fed_demand = old(next).demand_elapsed_ms + delta_ms;
            let fed_rate = old(next).rate_elapsed_ms + delta_ms;
            &&& final(next).tutorial_remaining_ms == 0
            &&& final(next).demand_elapsed_ms == fed_demand % (cfg.demand_period_ms as int)
            &&& final(next).rate_elapsed_ms == fed_rate % (cfg.demand_rate_period_ms as int)
            &&& final(demand).0 == (if fed_demand >= cfg.demand_period_ms {
                sat_add_spec(old(demand).0 as int, old(next).delta as int)
            } else {
                old(demand).0 as int
            })
            &&& final(next).delta == (if fed_rate >= cfg.demand_rate_period_ms {
                sat_add_spec(old(next).delta as int, cfg.demand_delta_step as int)
            } else {
                old(next).delta as int
            })
        },
{
    if next.tutorial_remaining_ms > delta_ms {
        next.tutorial_remaining_ms = next.tutorial_remaining_ms - delta_ms;
        return ;
    }
    next.tutorial_remaining_ms = 0;
    let fed_demand = next.demand_elapsed_ms + delta_ms;
    if fed_demand >= cfg.demand_period_ms {
        demand.0 = sat_add(demand.0, next.delta);
    }
    next.demand_elapsed_ms = fed_demand % cfg.demand_period_ms;
    let fed_rate = next.rate_elapsed_ms + delta_ms;
    if fed_rate >= cfg.demand_rate_period_ms {
        next.delta = sat_add(next.delta, cfg.demand_delta_step);
    }
    next.rate_elapsed_ms = fed_rate % cfg.demand_rate_period_ms;
}

/// The shortfall this tick sets out to cover: how far generated power
/// lags behind demand.
pub open spec fn deficit_spec(demand: int, supply: int) -> int {
    sat_sub_spec(demand, supply)
}

/// How much steam one generation tick converts: up to the deficit plus
/// the pending ramp delta, never more than the store holds.
pub open spec fn converted_spec(demand: int, supply: int, delta: int, steam: int) -> int {
    min_spec(steam, sat_add_spec(deficit_spec(demand, supply), delta))
}

/// Convert stored steam into generated power: the store shrinks and the
/// generated total grows by the converted amount. Returns whether the
/// deficit was left unmet this tick.
pub fn convert_steam_to_power(
    demand: u64,
    delta: u64,
    steam_store: &mut u64,
    power_generated: &mut u64,
) -> (unmet: bool)
    ensures
        *final(steam_store) == *old(steam_store) - converted_spec(
            demand as int,
            *old(power_generated) as int,
            delta as int,
            *old(steam_store) as int,
        ),
        *final(power_generated) == sat_add_spec(
            *old(power_generated) as int,
            converted_spec(
                demand as int,
                *old(power_generated) as int,
                delta as int,
                *old(steam_store) as int,
            ),
        ),
        unmet == (deficit_spec(demand as int, *old(power_generated) as int) > converted_spec(
            demand as int,
            *old(power_generated) as int,
            delta as int,
            *old(steam_store) as int,
        )),
{
    let deficit = sat_sub(demand, *power_generated);
    let converted = min64(*steam_store, sat_add(deficit, delta));
    *steam_store = *steam_store - converted;
    *power_generated = sat_add(*power_generated, converted);
    deficit > converted
}

/// The consecutive-shortfall counter's step: one more on an unmet tick,
/// back to zero whenever demand was fully met.
pub open spec fn shortfall_update(c: int, unmet: bool) -> int {
    if unmet {
        c + 1
    } else {
        0
    }
}

/// Advance the shortfall counter for this tick's outcome.
pub fn update_shortfall(ticks: &mut TicksWithoutPower, unmet: bool)
    requires
        old(ticks).0 < u64::MAX,
    ensures
        final(ticks).0 == shortfall_update(old(ticks).0 as int, unmet),
{
    if unmet {
        ticks.0 = ticks.0 + 1;
    } else {
        ticks.0 = 0;
    }
}

/// The power tracker's verdict for this tick.
#[derive(Clone, Copy, Debug, PartialEq, Eq, Structural)]
pub enum PowerStatus {
    /// Demand is met, or the shortfall is still short.
    Normal,
    /// The shortfall passed the warning threshold: a visible warning, no
    /// termination.
    LowPower,
    /// The shortfall passed the failure threshold: the session ends for
    /// want of power.
    Failed,
}

/// Judge the shortfall counter against the configured thresholds. This is
/// an exact per-tick check, not a one-shot: it holds the counter against
/// both thresholds every tick.
pub fn assess_power(ticks: &TicksWithoutPower, cfg: &SimulationConfig) -> (s: PowerStatus)
    ensures
        (s == PowerStatus::Failed) == (ticks.0 > cfg.low_power_fail_ticks),
        (s == PowerStatus::LowPower) == (ticks.0 <= cfg.low_power_fail_ticks && ticks.0
            > cfg.low_power_warn_ticks),
        (s == PowerStatus::Normal) == (ticks.0 <= cfg.low_power_fail_ticks && ticks.0
            <= cfg.low_power_warn_ticks),
{
    if ticks.0 > cfg.low_power_fail_ticks {
        PowerStatus::Failed
    } else if ticks.0 > cfg.low_power_warn_ticks {
        PowerStatus::LowPower
    } else {
        PowerStatus::Normal
    }
}

/// A run of consecutive unmet ticks counts up one by one from zero, so
/// the counter at tick `k` is exactly `k`: against a failure threshold of
/// `t`, the first tick whose counter exceeds `t` is tick `t + 1` — with
/// the reference threshold of 20, a termination for want of power fires
/// on exactly the 21st consecutive shortfall tick and on no earlier one.
pub proof fn lemma_power_outage_termination(counters: Seq<int>, t: int)
    requires
        counters.len() >= 1,
        counters[0] == 0,
        forall|k: int|
            0 <= k < counters.len() - 1 ==> counters[k + 1] == shortfall_update(
                #[trigger] counters[k],
                true,
            ),
    ensures
        forall|k: int| 0 <= k < counters.len() ==> counters[k] == k,
        forall|k: int| 0 <= k < counters.len() ==> ((#[trigger] counters[k] > t) <==> k > t),
    decreases counters.len(),
{
    if counters.len() > 1 {
        lemma_power_outage_termination(counters.drop_last(), t);
        assert forall|k: int| 0 <= k < counters.len() implies counters[k] == k by {
            if k < counters.len() - 1 {
                assert(counters.drop_last()[k] == k);
            } else {
                assert(counters.drop_last()[k - 1] == k - 1);
                assert(counters[k] == shortfall_update(counters[k - 1], true));
            }
        }
    }
}

} // verus!
