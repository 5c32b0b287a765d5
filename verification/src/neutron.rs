//! Neutron transport and fuel transmutation: neutrons travel outward from
//! their origin cell, are absorbed by control rods, trigger fission on
//! Uranium, burn Xenon poison off, and die out in two stages — a fading
//! grace period precedes removal. Angles are in millionths of a turn.

use vstd::prelude::*;
use crate::config::SimulationConfig;
use crate::fixed::{fp_mul, fp_mul_spec, sat_add, sat_add_spec, TURN};
use crate::lattice::{ReactorCell, ReactorCore};
use crate::types::FuelRod;

verus! {

/// Lifecycle state of a neutron: travelling and colliding, or fading out
/// before removal.
#[derive(Clone, Copy, Debug, PartialEq, Eq, Structural)]
pub enum Neutron {
    Active,
    Dying,
}

/// Angle between a fission product and the incoming neutron: 0.2 pi, a
/// tenth of a turn.
pub const FISSION_FAN_OFFSET: u64 = 100_000;

/// One neutron in flight.
#[derive(Clone, Copy, Debug, PartialEq, Eq, Structural)]
pub struct NeutronParticle {
    /// Lifecycle state.
    pub state: Neutron,
    /// Index of the cell that emitted it; it cannot re-collide there.
    pub origin: usize,
    /// Travel angle, in millionths of a turn, below [`TURN`].
    pub angle: u64,
    /// Distance travelled from the origin, in fixed-point cell widths.
    pub distance: u64,
    /// Time left until the next lifecycle transition, milliseconds.
    pub expiry_ms: u64,
}

impl NeutronParticle {
    /// A neutron's angle always stays below one full turn.
    pub open spec fn wf(self) -> bool {
        self.angle < TURN
    }
}

/// An angle advanced by an offset, wrapped to one turn.
pub open spec fn rotated(angle: int, offset: int) -> int {
    (angle + offset) % (TURN as int)
}

/// A newly emitted neutron at the given origin and angle.
pub open spec fn fresh_neutron(origin: int, angle: int, lifetime_ms: int) -> NeutronParticle {
    NeutronParticle {
        state: Neutron::Active,
        origin: origin as usize,
        angle: angle as u64,
        distance: 0,
        expiry_ms: lifetime_ms as u64,
    }
}

/// Emit one neutron from cell `origin` at `angle`.
pub fn spawn_neutron(
    neutrons: &mut Vec<NeutronParticle>,
    origin: usize,
    angle: u64,
    lifetime_ms: u64,
)
    requires
        angle < TURN,
        old(neutrons)@.len() < usize::MAX,
    ensures
        final(neutrons)@ == old(neutrons)@.push(
            fresh_neutron(origin as int, angle as int, lifetime_ms as int),
        ),
{
    neutrons.push(
        NeutronParticle {
            state: Neutron::Active,
            origin,
            angle,
            distance: 0,
            expiry_ms: lifetime_ms,
        },
    );
}

/// Resolve a neutron hitting a control rod: the rod absorbs it exactly
/// when the uniform draw falls below the rod's insertion fraction; an
/// absorbed neutron is removed, one that passes through is unaffected.
pub fn absorb_at_rod(
    neutrons: &mut Vec<NeutronParticle>,
    idx: usize,
    insertion: u64,
    draw: u64,
) -> (absorbed: bool)
    requires
        idx < old(neutrons)@.len(),
    ensures
        absorbed == (draw < insertion),
        absorbed ==> final(neutrons)@ == old(neutrons)@.remove(idx as int),
        !absorbed ==> final(neutrons)@ == old(neutrons)@,
{
    if draw < insertion {
        neutrons.remove(idx);
        true
    } else {
        false
    }
}

/// What a fuel-cell collision did.
#[derive(Clone, Copy, Debug, PartialEq, Eq, Structural)]
pub enum CollisionOutcome {
    /// The neutron hit the cell that emitted it; nothing happens.
    Ignored,
    /// Fission: the neutron is removed and three new ones fan out.
    Fission,
    /// The Xenon cell reverted to Uranium; the neutron is removed.
    BurnOff,
}

/// Resolve a neutron hitting the fuel rod of cell `cell`.
///
/// A hit on the neutron's own origin is ignored. A hit on Uranium is a
/// fission: the incoming neutron is removed and exactly three neutrons
/// are emitted from that cell, at the incoming angle and at offsets of
/// minus and plus a tenth of a turn (0.2 pi), wrapped to one turn — a
/// deterministic branching factor of three, not a random re-sample. A hit
/// on Xenon flips the cell's fuel back to Uranium, removes the neutron,
/// and spawns nothing.
pub fn resolve_fuel_hit(
    neutrons: &mut Vec<NeutronParticle>,
    idx: usize,
    core: &mut ReactorCore,
    cell: usize,
    lifetime_ms: u64,
) -> (outcome: CollisionOutcome)
    requires
        idx < old(neutrons)@.len(),
        cell < old(core).cells@.len(),
        old(neutrons)@[idx as int].wf(),
        old(neutrons)@.len() + 3 <= usize::MAX,
    ensures
        final(core).cells@.len() == old(core).cells@.len(),
        *final(core) == (ReactorCore { cells: final(core).cells, ..*old(core) }),
        outcome == CollisionOutcome::Ignored <==> old(neutrons)@[idx as int].origin == cell,
        outcome == CollisionOutcome::Ignored ==> *final(neutrons) == *old(neutrons)
            && *final(core) == *old(core),
        outcome == CollisionOutcome::Fission <==> (old(neutrons)@[idx as int].origin != cell
            && old(core).cells@[cell as int].fuel == FuelRod::Uranium),
        outcome == CollisionOutcome::Fission ==> {
            let a = old(neutrons)@[idx as int].angle as int;
            let t = TURN as int;
            &&& final(neutrons)@ == old(neutrons)@.remove(idx as int).push(
                fresh_neutron(
                    cell as int,
                    rotated(a, t - FISSION_FAN_OFFSET),
                    lifetime_ms as int,
                ),
            ).push(fresh_neutron(cell as int, a, lifetime_ms as int)).push(
                fresh_neutron(cell as int, rotated(a, FISSION_FAN_OFFSET as int), lifetime_ms as int),
            )
            &&& final(neutrons)@.len() == old(neutrons)@.len() + 2
            &&& *final(core) == *old(core)
        },
        outcome == CollisionOutcome::BurnOff <==> (old(neutrons)@[idx as int].origin != cell
            && old(core).cells@[cell as int].fuel == FuelRod::Xenon),
        outcome == CollisionOutcome::BurnOff ==> {
            &&& final(neutrons)@ == old(neutrons)@.remove(idx as int)
            &&& final(core).cells@ == old(core).cells@.update(
                cell as int,
                (ReactorCell { fuel: FuelRod::Uranium, ..old(core).cells@[cell as int] }),
            )
        },
{
    let n = neutrons[idx];
    if n.origin == cell {
        return CollisionOutcome::Ignored;
    }
    let is_uranium = match core.cells[cell].fuel {
        FuelRod::Uranium => true,
        FuelRod::Xenon => false,
    };
    if is_uranium {
        let a = n.angle;
        neutrons.remove(idx);
        let left = (a + (TURN - FISSION_FAN_OFFSET)) % TURN;
        let right = (a + FISSION_FAN_OFFSET) % TURN;
        spawn_neutron(neutrons, cell, left, lifetime_ms);
        spawn_neutron(neutrons, cell, a, lifetime_ms);
        spawn_neutron(neutrons, cell, right, lifetime_ms);
        CollisionOutcome::Fission
    } else {
        neutrons.remove(idx);
        let mut changed = core.cells[cell];
        changed.fuel = FuelRod::Uranium;
        core.cells.set(cell, changed);
        CollisionOutcome::BurnOff
    }
}

/// How one tick's travel transforms a neutron: it advances outward at the
/// fixed radial speed, its timer runs down, and on expiry it turns Dying
/// for the fade-out grace period; an expired Dying neutron stays at
/// expiry zero until the sweep removes it.
pub open spec fn advanced_neutron(
    cfg: SimulationConfig,
    n: NeutronParticle,
    delta_ms: int,
) -> NeutronParticle {
    let moved = NeutronParticle {
        distance: sat_add_spec(
            n.distance as int,
            fp_mul_spec(cfg.neutron_speed as int, delta_ms),
        ) as u64,
        ..n
    };
    if n.expiry_ms > delta_ms {
        NeutronParticle { expiry_ms: (n.expiry_ms - delta_ms) as u64, ..moved }
    } else if n.state == Neutron::Active {
        NeutronParticle { state: Neutron::Dying, expiry_ms: cfg.neutron_fade_ms, ..moved }
    } else {
        NeutronParticle { expiry_ms: 0, ..moved }
    }
}

/// A Dying neutron whose grace period has fully elapsed is gone.
pub open spec fn expired(n: NeutronParticle) -> bool {
    n.state == Neutron::Dying && n.expiry_ms == 0
}

/// The neutrons of `s` that remain after the sweep, in order.
pub open spec fn surviving(s: Seq<NeutronParticle>) -> Seq<NeutronParticle>
    decreases s.len(),
{
    if s.len() == 0 {
        Seq::empty()
    } else if expired(s.last()) {
        surviving(s.drop_last())
    } else {
        surviving(s.drop_last()).push(s.last())
    }
}

/// How many neutrons of `s` originate at cell `c`.
pub open spec fn count_with_origin(s: Seq<NeutronParticle>, c: int) -> int
    decreases s.len(),
{
    if s.len() == 0 {
        0
    } else {
        count_with_origin(s.drop_last(), c) + if s.last().origin == c {
            1int
        } else {
            0int
        }
    }
}

/// Appending one neutron raises exactly its own origin's count by one.
pub proof fn lemma_count_with_origin_push(s: Seq<NeutronParticle>, x: NeutronParticle, c: int)
    ensures
        count_with_origin(s.push(x), c) == count_with_origin(s, c) + if x.origin == c {
            1int
        } else {
            0int
        },
{
    assert(s.push(x).drop_last() =~= s);
}

/// The sweep only removes neutrons, so a property of every neutron
/// survives it.
pub proof fn lemma_surviving_wf(s: Seq<NeutronParticle>)
    requires
        forall|k: int| 0 <= k < s.len() ==> (#[trigger] s[k]).wf(),
    ensures
        forall|k: int| 0 <= k < surviving(s).len() ==> (#[trigger] surviving(s)[k]).wf(),
    decreases s.len(),
{
    if s.len() > 0 {
        assert forall|k: int| 0 <= k < s.drop_last().len() implies (#[trigger] s.drop_last()[k]).wf()
            by {
            assert(s[k].wf());
        }
        lemma_surviving_wf(s.drop_last());
        assert forall|k: int| 0 <= k < surviving(s).len() implies (#[trigger] surviving(s)[k]).wf()
            by {
            if !expired(s.last()) && k == surviving(s).len() - 1 {
                assert(s[s.len() - 1].wf());
            } else {
                assert(surviving(s)[k] == surviving(s.drop_last())[k]);
            }
        }
    }
}

/// Advance every neutron by one tick's travel and lifecycle step, then
/// remove those whose fade-out has fully elapsed. The two-stage removal
/// (Active to Dying to gone) is preserved: a neutron that expires this
/// tick fades for `neutron_fade_ms` before a later sweep removes it.
pub fn advance_neutrons(neutrons: &mut Vec<NeutronParticle>, cfg: &SimulationConfig, delta_ms: u64)
    ensures
        final(neutrons)@ == surviving(
            old(neutrons)@.map_values(|n: NeutronParticle| advanced_neutron(*cfg, n, delta_ms as int)),
        ),
{
    let ghost orig = neutrons@;
    let n = neutrons.len();
    let mut i: usize = 0;
    while i < n
        invariant
            n == neutrons@.len(),
            i <= n,
            forall|k: int|
                0 <= k < i ==> neutrons@[k] == advanced_neutron(*cfg, orig[k], delta_ms as int),
            forall|k: int| i <= k < n ==> neutrons@[k] == orig[k],
        decreases n - i,
    {
        let p = neutrons[i];
        let moved_distance = sat_add(p.distance, fp_mul(cfg.neutron_speed, delta_ms));
        let mut updated = p;
        updated.distance = moved_distance;
        if p.expiry_ms > delta_ms {
            updated.expiry_ms = p.expiry_ms - delta_ms;
        } else {
            match p.state {
                Neutron::Active => {
                    updated.state = Neutron::Dying;
                    updated.expiry_ms = cfg.neutron_fade_ms;
                },
                Neutron::Dying => {
                    updated.expiry_ms = 0;
                },
            }
        }
        neutrons.set(i, updated);
        i = i + 1;
    }
    proof {
        assert(neutrons@ =~= orig.map_values(
            |m: NeutronParticle| advanced_neutron(*cfg, m, delta_ms as int),
        ));
    }
    let ghost advanced = neutrons@;
    let mut kept: Vec<NeutronParticle> = Vec::new();
    let mut i: usize = 0;
    while i < n
        invariant
            n == advanced.len(),
            neutrons@ == advanced,
            i <= n,
            kept@ == surviving(advanced.take(i as int)),
        decreases n - i,
    {
        proof {
            assert(advanced.take(i + 1).drop_last() =~= advanced.take(i as int));
        }
        let p = neutrons[i];
        let is_expired = match p.state {
            Neutron::Dying => p.expiry_ms == 0,
            Neutron::Active => false,
        };
        if !is_expired {
            kept.push(p);
        }
        i = i + 1;
    }
    proof {
        assert(advanced.take(n as int) =~= advanced);
    }
    *neutrons = kept;
}

/// Note that a neutron has left the play field: an Active neutron turns
/// Dying and begins its fade-out; one already Dying is unaffected.
pub fn mark_out_of_bounds(neutrons: &mut Vec<NeutronParticle>, idx: usize, fade_ms: u64)
    requires
        idx < old(neutrons)@.len(),
    ensures
        old(neutrons)@[idx as int].state == Neutron::Active ==> final(neutrons)@ == old(
            neutrons,
        )@.update(
            idx as int,
            (NeutronParticle {
                state: Neutron::Dying,
                expiry_ms: fade_ms,
                ..old(neutrons)@[idx as int]
            }),
        ),
        old(neutrons)@[idx as int].state == Neutron::Dying ==> final(neutrons)@ == old(neutrons)@,
{
    let p = neutrons[idx];
    match p.state {
        Neutron::Active => {
            let mut updated = p;
            updated.state = Neutron::Dying;
            updated.expiry_ms = fade_ms;
            neutrons.set(idx, updated);
        },
        Neutron::Dying => {},
    }
}

} // verus!
