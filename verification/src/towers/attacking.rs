//! When a tower shoots, and at what.

use vstd::prelude::*;
use crate::entity::Entity;
use crate::math_utils::Position;
use crate::towers::targeting::{creeps_within, get_all_creeps_within_range};
use crate::towers::{cooldown_is_done, Building, Projectile, Shot, TowerBundle};
use crate::world::{sights, units_in_world, Sight, Unit};

verus! {

impl Building {
    /// The creeps at which the building shoots in the next `dt` milliseconds:
    /// none unless it is a tower whose cooldown completes; then its target,
    /// if it has one, or, for a tower that attacks all at once, every creep
    /// within reach that its filter lets through.
    pub open spec fn volley(self, sights: Seq<Option<Sight>>, dt: u32) -> Seq<Entity> {
        match (self.tower, self.gem) {
            (Some(tower), Some(gem)) => {
                if !tower.cooldown.cooled(tower.speed, dt).is_done() {
                    Seq::empty()
                } else if gem.kind.attacks_all_spec() {
                    creeps_within(
                        sights,
                        self.position,
                        tower.range,
                        gem.kind.filter_spec(),
                        sights.len(),
                    )
                } else {
                    match tower.target.0 {
                        Some(target) => seq![target],
                        None => Seq::empty(),
                    }
                }
            },
            _ => Seq::empty(),
        }
    }

    /// The building after `dt` milliseconds of cooldown, which starts over
    /// when the building has shot.
    pub open spec fn attacked(self, sights: Seq<Option<Sight>>, dt: u32) -> Building {
        match (self.tower, self.gem) {
            (Some(tower), Some(gem)) => {
                let cooled = tower.cooldown.cooled(tower.speed, dt);
                Building {
                    tower: Some(
                        TowerBundle {
                            cooldown: if self.volley(sights, dt).len() > 0 {
                                cooled.restarted()
                            } else {
                                cooled
                            },
                            ..tower
                        },
                    ),
                    ..self
                }
            },
            _ => self,
        }
    }
}

/// The shots of a tower at `position` with the handle `origin`, one at each
/// of `targets`.
pub open spec fn shots_at(position: Position, origin: Entity, targets: Seq<Entity>) -> Seq<Unit> {
    Seq::new(
        targets.len(),
        |k: int| Unit::Shot(Shot { position, projectile: Projectile { origin, target: targets[k] } }),
    )
}

/// The shots that the towers among the first `n` units fire in the next
/// `dt` milliseconds, in the order of the units.
pub open spec fn volleys(units: Seq<Unit>, dt: u32, n: nat) -> Seq<Unit>
    decreases n,
{
    if n == 0 {
        Seq::empty()
    } else {
        let before = volleys(units, dt, (n - 1) as nat);
        match units[n - 1] {
            Unit::Building(building) => before + shots_at(
                building.position,
                Entity((n - 1) as usize),
                building.volley(sights(units), dt),
            ),
            _ => before,
        }
    }
}

/// The units after `dt` milliseconds of cooldown of every tower, and behind
/// them the shots that the towers fire in that time.
pub open spec fn attacked_all(units: Seq<Unit>, dt: u32) -> Seq<Unit> {
    Seq::new(
        units.len(),
        |i: int| Unit::on_building(units[i], |b: Building| b.attacked(sights(units), dt)),
    ) + volleys(units, dt, units.len())
}

/// Puts a shot from the tower `gem_entity` at `gem_position` to the creep
/// `closest_creep` among the units.
pub fn launch_projectile(
    units: &mut Vec<Unit>,
    gem_position: Position,
    gem_entity: Entity,
    closest_creep: Entity,
)
    ensures
        final(units)@ == old(units)@.push(
            Unit::Shot(
                Shot {
                    position: gem_position,
                    projectile: Projectile { origin: gem_entity, target: closest_creep },
                },
            ),
        ),
{
    units.push(
        Unit::Shot(
            Shot {
                position: gem_position,
                projectile: Projectile { origin: gem_entity, target: closest_creep },
            },
        ),
    );
}

/// Lets `dt` milliseconds of cooldown pass for every tower. A tower whose
/// cooldown completes shoots, and its cooldown starts over if it did: a
/// tower that attacks one creep at a time at its target, a tower that
/// attacks all at once at every creep within reach. The shots start at
/// their towers and come after the units that were there.
pub fn attack(dt: u32, units: &mut Vec<Unit>)
    requires
        units_in_world(old(units)@),
    ensures
        final(units)@ == attacked_all(old(units)@, dt),
        units_in_world(final(units)@),
{
    let n = units.len();
    let ghost seen = sights(units@);
    let mut fired: Vec<Unit> = Vec::new();
    let mut i: usize = 0;
    while i < n
        invariant
            i <= n,
            n == units@.len(),
            n == old(units)@.len(),
            seen == sights(old(units)@),
            seen == sights(units@),
            units_in_world(units@),
            units_in_world(fired@),
            forall|j: int|
                0 <= j < i ==> units@[j] == Unit::on_building(
                    old(units)@[j],
                    |b: Building| b.attacked(seen, dt),
                ),
            forall|j: int| i <= j < n ==> units@[j] == old(units)@[j],
            fired@ == volleys(old(units)@, dt, i as nat),
        decreases n - i,
    {
        let ghost before = units@;
        let ghost fired_before = fired@;
        assert(before[i as int].in_world());
        let job = match &units[i] {
            Unit::Building(building) => match (&building.tower, building.gem) {
                (Some(tower), Some(gem)) => Some(
                    (building.position, tower.range, gem.kind, tower.target.0, tower.cooldown,
                        tower.speed),
                ),
                _ => None,
            },
            _ => None,
        };
        match job {
            Some((at, range, kind, target, cooldown, speed)) => {
                let mut cooldown = cooldown;
                let mut targets: Vec<Entity> = Vec::new();
                if cooldown_is_done(&mut cooldown, speed, dt) {
                    if kind.attacks_all() {
                        targets = get_all_creeps_within_range(units, at, range, kind.filter());
                    } else {
                        match target {
                            Some(target) => {
                                targets.push(target);
                            },
                            None => {},
                        }
                    }
                }
                let ghost building = before[i as int]->Building_0;
                assert(targets@ =~= building.volley(seen, dt));
                if targets.len() > 0 {
                    cooldown.0.reset();
                }
                match &mut units[i] {
                    Unit::Building(building) => match &mut building.tower {
                        Some(tower) => {
                            tower.cooldown = cooldown;
                        },
                        None => {},
                    },
                    _ => {},
                }
                let mut k: usize = 0;
                while k < targets.len()
                    invariant
                        k <= targets.len(),
                        at.in_world(),
                        units_in_world(fired_before),
                        fired@ == fired_before + shots_at(at, Entity(i), targets@.take(k as int)),
                    decreases targets.len() - k,
                {
                    launch_projectile(&mut fired, at, Entity(i), targets[k]);
                    assert(fired@ =~= fired_before + shots_at(
                        at,
                        Entity(i),
                        targets@.take(k + 1),
                    ));
                    k += 1;
                }
                assert(targets@.take(targets@.len() as int) =~= targets@);
            },
            None => {},
        }
        proof {
            assert(sights(units@) =~= seen);
            assert(fired@ =~= volleys(old(units)@, dt, (i + 1) as nat));
            assert forall|j: int| 0 <= j < n implies (#[trigger] units@[j]).in_world() by {
                if j != i {
                    assert(units@[j] == before[j]);
                }
            }
            assert forall|j: int| 0 <= j < fired@.len() implies (#[trigger] fired@[j]).in_world() by {
                if j < fired_before.len() {
                    assert(fired@[j] == fired_before[j]);
                }
            }
        }
        i += 1;
    }
    let ghost updated = units@;
    let ghost shots = fired@;
    units.append(&mut fired);
    proof {
        assert(units@ =~= attacked_all(old(units)@, dt));
        assert forall|j: int| 0 <= j < units@.len() implies (#[trigger] units@[j]).in_world() by {
            if j < n {
                assert(units@[j] == updated[j]);
            } else {
                assert(units@[j] == shots[j - n]);
            }
        }
    }
}

} // verus!
