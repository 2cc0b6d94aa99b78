//! The flight of a shot to its target.

use vstd::prelude::*;
use crate::math_utils::{
    abs_diff, distance_squared_spec, magnitude, move_towards, move_towards_spec, Position,
};
use crate::towers::{ProjectileHit, Shot};
use crate::world::{sights, towers, units_in_world, Sight, Unit};

verus! {

/// Thousandths of a world unit that a shot flies in a second.
pub const PROJECTILE_SPEED: u32 = 10000;

/// A shot has hit when it is no further than this from its target along
/// either axis of the ground, in thousandths of a world unit.
pub const IMPACT: u64 = 50;

impl Shot {
    /// The creep at which the shot flies, if it still exists and the tower
    /// that fired the shot still stands.
    pub open spec fn quarry(self, sights: Seq<Option<Sight>>, towers: Seq<bool>) -> Option<Sight> {
        if self.projectile.origin.0 < towers.len() && towers[self.projectile.origin.0 as int]
            && self.projectile.target.0 < sights.len() {
            sights[self.projectile.target.0 as int]
        } else {
            None
        }
    }

    /// Where the shot is after `dt` more milliseconds of flight towards
    /// `goal`.
    pub open spec fn approach(self, goal: Position, dt: u32) -> Position {
        move_towards_spec(self.position, goal, (PROJECTILE_SPEED * dt) / 1000)
    }

    /// The shot reaches `goal` within `dt` milliseconds.
    pub open spec fn reaches(self, goal: Position, dt: u32) -> bool {
        let next = self.approach(goal, dt);
        magnitude(goal.x - next.x) <= IMPACT && magnitude(goal.z - next.z) <= IMPACT
    }

    /// The shot after `dt` milliseconds, or `None` when it is gone: because
    /// its target or its tower no longer exists, or because it has hit.
    pub open spec fn flown(self, sights: Seq<Option<Sight>>, towers: Seq<bool>, dt: u32) -> Option<
        Shot,
    > {
        match self.quarry(sights, towers) {
            Some(seen) if !self.reaches(seen.position, dt) => Some(
                Shot { position: self.approach(seen.position, dt), ..self },
            ),
            _ => None,
        }
    }

    /// The hit that the shot makes within `dt` milliseconds, if it makes
    /// one. A shot whose target or tower no longer exists makes none.
    pub open spec fn hit(self, sights: Seq<Option<Sight>>, towers: Seq<bool>, dt: u32) -> Option<
        ProjectileHit,
    > {
        match self.quarry(sights, towers) {
            Some(seen) if self.reaches(seen.position, dt) => Some(ProjectileHit(self.projectile)),
            _ => None,
        }
    }
}

/// The unit after `dt` milliseconds if it is a shot: its place is vacant once
/// it is gone.
pub open spec fn flown_unit(
    unit: Unit,
    sights: Seq<Option<Sight>>,
    towers: Seq<bool>,
    dt: u32,
) -> Unit {
    match unit {
        Unit::Shot(shot) => match shot.flown(sights, towers, dt) {
            Some(next) => Unit::Shot(next),
            None => Unit::Vacant,
        },
        other => other,
    }
}

/// The units after every shot has flown for `dt` milliseconds.
pub open spec fn flown_all(units: Seq<Unit>, dt: u32) -> Seq<Unit> {
    Seq::new(units.len(), |i: int| flown_unit(units[i], sights(units), towers(units), dt))
}

/// The hits on record after the shots among the first `n` units have flown
/// for `dt` milliseconds, in the order of the units.
pub open spec fn hits_after(units: Seq<Unit>, dt: u32, hits: Seq<ProjectileHit>, n: nat) -> Seq<
    ProjectileHit,
>
    decreases n,
{
    if n == 0 {
        hits
    } else {
        let before = hits_after(units, dt, hits, (n - 1) as nat);
        match units[n - 1] {
            Unit::Shot(shot) => match shot.hit(sights(units), towers(units), dt) {
                Some(hit) => before.push(hit),
                None => before,
            },
            _ => before,
        }
    }
}

/// Lets every shot fly for `dt` milliseconds towards its target. A shot
/// that arrives records its hit and is gone; a shot whose target or tower no
/// longer exists is gone without a hit.
pub fn move_projectile(dt: u32, units: &mut Vec<Unit>, ew: &mut Vec<ProjectileHit>)
    requires
        units_in_world(old(units)@),
    ensures
        final(units)@ == flown_all(old(units)@, dt),
        final(ew)@ == hits_after(old(units)@, dt, old(ew)@, old(units)@.len()),
        sights(final(units)@) == sights(old(units)@),
        towers(final(units)@) == towers(old(units)@),
        units_in_world(final(units)@),
{
    let n = units.len();
    let ghost seen = sights(units@);
    let ghost standing = towers(units@);
    let mut i: usize = 0;
    while i < n
        invariant
            i <= n,
            n == units@.len(),
            n == old(units)@.len(),
            seen == sights(old(units)@),
            seen == sights(units@),
            standing == towers(old(units)@),
            standing == towers(units@),
            units_in_world(units@),
            forall|j: int|
                0 <= j < i ==> units@[j] == flown_unit(old(units)@[j], seen, standing, dt),
            forall|j: int| i <= j < n ==> units@[j] == old(units)@[j],
            ew@ == hits_after(old(units)@, dt, old(ew)@, i as nat),
        decreases n - i,
    {
        let ghost before = units@;
        assert(before[i as int].in_world());
        let job = match &units[i] {
            Unit::Shot(shot) => Some(*shot),
            _ => None,
        };
        match job {
            Some(shot) => {
                let target = shot.projectile.target.0;
                let origin = shot.projectile.origin.0;
                let armed = origin < n && match &units[origin] {
                    Unit::Building(building) => building.tower.is_some(),
                    _ => false,
                };
                let goal = if armed && target < n {
                    assert(before[target as int].in_world());
                    match &units[target] {
                        Unit::Creep(creep) => Some(creep.position),
                        _ => None,
                    }
                } else {
                    None
                };
                assert(goal == match shot.quarry(seen, standing) {
                    Some(sight) => Some(sight.position),
                    None => None,
                });
                match goal {
                    Some(goal) => {
                        assert(PROJECTILE_SPEED * dt <= u64::MAX) by (nonlinear_arith)
                            requires
                                PROJECTILE_SPEED == 10000,
                                0 <= dt <= u32::MAX,
                        ;
                        let step: u64 = PROJECTILE_SPEED as u64 * dt as u64 / 1000;
                        let next = move_towards(shot.position, goal, step);
                        if abs_diff(goal.x, next.x) <= IMPACT && abs_diff(goal.z, next.z)
                            <= IMPACT {
                            ew.push(ProjectileHit(shot.projectile));
                            units[i] = Unit::Vacant;
                        } else {
                            units[i] = Unit::Shot(Shot { position: next, projectile: shot.projectile });
                        }
                    },
                    None => {
                        units[i] = Unit::Vacant;
                    },
                }
            },
            None => {},
        }
        proof {
            assert(sights(units@) =~= seen);
            assert(towers(units@) =~= standing);
            assert forall|j: int| 0 <= j < n implies (#[trigger] units@[j]).in_world() by {
                if j != i {
                    assert(units@[j] == before[j]);
                }
            }
        }
        i += 1;
    }
    assert(units@ =~= flown_all(old(units)@, dt));
}

/// A shot whose target no longer exists, or whose tower no longer stands,
/// is gone after the tick and has made no hit.
pub proof fn lemma_shot_without_target(
    shot: Shot,
    sights: Seq<Option<Sight>>,
    towers: Seq<bool>,
    dt: u32,
)
    requires
        shot.projectile.target.0 >= sights.len() || sights[shot.projectile.target.0 as int]
            is None || shot.projectile.origin.0 >= towers.len()
            || !towers[shot.projectile.origin.0 as int],
    ensures
        shot.flown(sights, towers, dt) is None,
        shot.hit(sights, towers, dt) is None,
{
}

/// A shot that has made its hit is gone, so that no shot hits twice; and a
/// shot that is gone with its target still there has made its hit.
pub proof fn lemma_shot_hits_once(
    shot: Shot,
    sights: Seq<Option<Sight>>,
    towers: Seq<bool>,
    dt: u32,
)
    ensures
        shot.hit(sights, towers, dt) is Some ==> shot.flown(sights, towers, dt) is None,
        shot.flown(sights, towers, dt) is None && shot.quarry(sights, towers) is Some ==> shot.hit(
            sights,
            towers,
            dt,
        ) == Some(ProjectileHit(shot.projectile)),
{
}

/// A shot reaches a target that is within one step of it.
pub proof fn lemma_shot_arrives(shot: Shot, goal: Position, dt: u32)
    requires
        distance_squared_spec(shot.position, goal) <= ((PROJECTILE_SPEED * dt) / 1000) * ((
        PROJECTILE_SPEED * dt) / 1000),
    ensures
        shot.approach(goal, dt) == goal,
        shot.reaches(goal, dt),
{
}

} // verus!
