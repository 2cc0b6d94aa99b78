//! What a hit does to the creep on which it lands.

use vstd::prelude::*;
use crate::abilities::on_hit::{OnHit, CHANCE_ROLLS};
use crate::creeps::effects::{
    lemma_attached_effects_are_sound, lemma_poison_keeps_pairing, lemma_slow_keeps_pairing,
};
use crate::creeps::{damage_creep, deaths_after, life_after, Creep, Death, Life};
use crate::entity::Entity;
use crate::random::roll_between;
use crate::towers::{ProjectileHit, TowerBundle};
use crate::world::{units_in_world, Unit};

verus! {

/// The rolls of one hit: one for its damage and one for each ability of the
/// tower, in their order.
pub struct HitRolls {
    pub damage: u64,
    pub chances: Vec<u64>,
}

/// The units, the splashes that hits have left, and the deaths on record,
/// while the hits of one tick are resolved.
pub struct Battle {
    pub units: Seq<Unit>,
    pub splashes: Seq<Unit>,
    pub deaths: Seq<Death>,
}

/// The roll for the ability at place `k`; an ability without a roll rolls
/// zero.
pub open spec fn chance_at(chances: Seq<u64>, k: int) -> u64 {
    if 0 <= k < chances.len() {
        chances[k]
    } else {
        0
    }
}

/// The creep, the damage and the splashes after the first `k` of
/// `abilities` were applied, in order, to a hit on `creep` that deals
/// `damage`. A splash carries the damage that the hit dealt when its
/// ability's turn came.
pub open spec fn struck(
    creep: Creep,
    damage: u64,
    abilities: Seq<OnHit>,
    chances: Seq<u64>,
    k: nat,
) -> (Creep, u64, Seq<Unit>)
    decreases k,
{
    if k == 0 {
        (creep, damage, Seq::empty())
    } else {
        let (creep_before, damage_before, splashes) = struck(
            creep,
            damage,
            abilities,
            chances,
            (k - 1) as nat,
        );
        let ability = abilities[k - 1];
        (
            ability.creep_after(creep_before),
            ability.damage_after(chance_at(chances, k - 1), damage_before),
            match ability.splash_of(damage_before, creep.position) {
                Some(splash) => splashes.push(Unit::Splash(splash)),
                None => splashes,
            },
        )
    }
}

/// The tower with the handle `entity`, if there is one.
pub open spec fn tower_of(units: Seq<Unit>, entity: Entity) -> Option<TowerBundle> {
    if entity.0 < units.len() {
        match units[entity.0 as int] {
            Unit::Building(building) => building.tower,
            _ => None,
        }
    } else {
        None
    }
}

/// The creep with the handle `entity`, if there is one.
pub open spec fn creep_of(units: Seq<Unit>, entity: Entity) -> Option<Creep> {
    if entity.0 < units.len() {
        match units[entity.0 as int] {
            Unit::Creep(creep) => Some(creep),
            _ => None,
        }
    } else {
        None
    }
}

/// The battle after one hit with the given rolls. Where the creep that was
/// hit and the tower that shot both still exist, the tower's abilities are
/// applied in order to the creep and to the rolled damage, and the creep
/// then takes what damage has come of it; any other hit changes nothing.
pub open spec fn hit_resolved(
    battle: Battle,
    hit: ProjectileHit,
    damage_roll: u64,
    chances: Seq<u64>,
) -> Battle {
    match (creep_of(battle.units, hit.0.target), tower_of(battle.units, hit.0.origin)) {
        (Some(creep), Some(tower)) => {
            let (after, damage, splashes) = struck(
                creep,
                tower.damage.rolled(damage_roll),
                tower.abilities.0@,
                chances,
                tower.abilities.0@.len(),
            );
            Battle {
                units: battle.units.update(
                    hit.0.target.0 as int,
                    Unit::Creep(Creep { life: Life(life_after(after.life.0, damage)), ..after }),
                ),
                splashes: battle.splashes + splashes,
                deaths: deaths_after(battle.deaths, hit.0.target, after.life.0, damage),
            }
        },
        _ => battle,
    }
}

/// The battle after the first `k` of `hits`, in order, the hit at place `i`
/// with the rolls at place `i`.
pub open spec fn hits_resolved(
    battle: Battle,
    hits: Seq<ProjectileHit>,
    rolls: Seq<HitRolls>,
    k: nat,
) -> Battle
    decreases k,
{
    if k == 0 {
        battle
    } else {
        hit_resolved(
            hits_resolved(battle, hits, rolls, (k - 1) as nat),
            hits[k - 1],
            rolls[k - 1].damage,
            rolls[k - 1].chances@,
        )
    }
}

/// Every roll for an ability lies below [`CHANCE_ROLLS`].
pub open spec fn fair(rolls: Seq<HitRolls>) -> bool {
    forall|i: int, j: int|
        0 <= i < rolls.len() && 0 <= j < rolls[i].chances@.len() ==> #[trigger] rolls[i].chances@[j]
            < CHANCE_ROLLS
}

fn copy_abilities(abilities: &Vec<OnHit>) -> (copy: Vec<OnHit>)
    ensures
        copy@ == abilities@,
{
    let mut copy: Vec<OnHit> = Vec::new();
    let mut k: usize = 0;
    while k < abilities.len()
        invariant
            k <= abilities.len(),
            copy@ == abilities@.take(k as int),
        decreases abilities.len() - k,
    {
        copy.push(abilities[k]);
        assert(copy@ =~= abilities@.take(k + 1));
        k += 1;
    }
    assert(abilities@.take(abilities@.len() as int) =~= abilities@);
    copy
}

/// Applies `abilities` in order to a hit on `creep` that deals `damage`,
/// the ability at place `k` with the roll at place `k`, and puts the
/// splashes that they leave behind `splashes`.
pub fn strike(
    creep: &mut Creep,
    damage: &mut u64,
    abilities: &Vec<OnHit>,
    chances: &Vec<u64>,
    splashes: &mut Vec<Unit>,
)
    ensures
        (*final(creep), *final(damage), final(splashes)@) == ({
            let (after, dealt, left) = struck(
                *old(creep),
                *old(damage),
                abilities@,
                chances@,
                abilities@.len(),
            );
            (after, dealt, old(splashes)@ + left)
        }),
{
    let position = creep.position;
    let mut k: usize = 0;
    assert(splashes@ =~= old(splashes)@ + Seq::<Unit>::empty());
    while k < abilities.len()
        invariant
            k <= abilities.len(),
            position == old(creep).position,
            (*creep, *damage, splashes@) == ({
                let (after, dealt, left) = struck(
                    *old(creep),
                    *old(damage),
                    abilities@,
                    chances@,
                    k as nat,
                );
                (after, dealt, old(splashes)@ + left)
            }),
        decreases abilities.len() - k,
    {
        let roll = if k < chances.len() {
            chances[k]
        } else {
            0
        };
        let ghost left = struck(*old(creep), *old(damage), abilities@, chances@, k as nat).2;
        match abilities[k].apply_rolled(roll, creep, damage, position) {
            Some(splash) => {
                splashes.push(Unit::Splash(splash));
                assert(splashes@ =~= old(splashes)@ + left.push(Unit::Splash(splash)));
            },
            None => {},
        }
        k += 1;
    }
}

/// Resolves the hits of one tick in order, the hit at place `i` with the
/// rolls at place `i`, and puts the splashes that they leave behind the
/// units.
pub fn projectile_hit_with(
    hits: &Vec<ProjectileHit>,
    rolls: &Vec<HitRolls>,
    units: &mut Vec<Unit>,
    ew: &mut Vec<Death>,
)
    requires
        rolls@.len() == hits@.len(),
        units_in_world(old(units)@),
    ensures
        ({
            let battle = hits_resolved(
                Battle { units: old(units)@, splashes: Seq::empty(), deaths: old(ew)@ },
                hits@,
                rolls@,
                hits@.len(),
            );
            final(units)@ == battle.units + battle.splashes && final(ew)@ == battle.deaths
        }),
        units_in_world(final(units)@),
{
    let n = units.len();
    let ghost start = Battle { units: old(units)@, splashes: Seq::empty(), deaths: old(ew)@ };
    let mut splashes: Vec<Unit> = Vec::new();
    let mut i: usize = 0;
    while i < hits.len()
        invariant
            i <= hits.len(),
            rolls@.len() == hits@.len(),
            n == units@.len(),
            start == (Battle { units: old(units)@, splashes: Seq::empty(), deaths: old(ew)@ }),
            (Battle { units: units@, splashes: splashes@, deaths: ew@ }) == hits_resolved(
                start,
                hits@,
                rolls@,
                i as nat,
            ),
            units_in_world(units@),
            units_in_world(splashes@),
        decreases hits.len() - i,
    {
        let ghost before = Battle { units: units@, splashes: splashes@, deaths: ew@ };
        let target = hits[i].0.target;
        let origin = hits[i].0.origin;
        let tower = if origin.0 < n {
            match &units[origin.0] {
                Unit::Building(building) => match &building.tower {
                    Some(tower) => Some((tower.damage, copy_abilities(&tower.abilities.0))),
                    None => None,
                },
                _ => None,
            }
        } else {
            None
        };
        match tower {
            Some((damage, abilities)) => {
                if target.0 < n {
                    assert(units@[target.0 as int].in_world());
                    match &mut units[target.0] {
                        Unit::Creep(creep) => {
                            let mut dealt = damage.roll_as(rolls[i].damage);
                            strike(creep, &mut dealt, &abilities, &rolls[i].chances, &mut splashes);
                            damage_creep(target, dealt, &mut creep.life, ew);
                            proof {
                                lemma_strike_keeps_place(
                                    creep_of(before.units, target).unwrap(),
                                    damage.rolled(rolls@[i as int].damage),
                                    abilities@,
                                    rolls@[i as int].chances@,
                                    abilities@.len(),
                                );
                            }
                        },
                        _ => {},
                    }
                }
            },
            None => {},
        }
        proof {
            let after = hit_resolved(
                before,
                hits@[i as int],
                rolls@[i as int].damage,
                rolls@[i as int].chances@,
            );
            assert(units@ =~= after.units);
            assert(splashes@ =~= after.splashes);
            assert(ew@ =~= after.deaths);
            assert forall|j: int| 0 <= j < units@.len() implies (#[trigger] units@[j]).in_world() by {
                if j != target.0 {
                    assert(units@[j] == before.units[j]);
                } else {
                    assert(before.units[j].in_world());
                }
            }
            assert forall|j: int| 0 <= j < splashes@.len() implies (
            #[trigger] splashes@[j]).in_world() by {
                if j < before.splashes.len() {
                    assert(splashes@[j] == before.splashes[j]);
                } else {
                    assert(before.units[target.0 as int].in_world());
                }
            }
        }
        i += 1;
    }
    let ghost fought = units@;
    let ghost left = splashes@;
    units.append(&mut splashes);
    proof {
        assert(units@ =~= fought + left);
        assert forall|j: int| 0 <= j < units@.len() implies (#[trigger] units@[j]).in_world() by {
            if j < n {
                assert(units@[j] == fought[j]);
            } else {
                assert(units@[j] == left[j - n]);
            }
        }
    }
}

/// Draws the rolls of every hit and resolves the hits of one tick in order:
/// see [`projectile_hit_with`].
pub fn projectile_hit(hits: &Vec<ProjectileHit>, units: &mut Vec<Unit>, ew: &mut Vec<Death>)
    requires
        units_in_world(old(units)@),
    ensures
        exists|rolls: Seq<HitRolls>|
            {
                &&& rolls.len() == hits@.len()
                &&& fair(rolls)
                &&& final(units)@ == (#[trigger] hits_resolved(
                    Battle { units: old(units)@, splashes: Seq::empty(), deaths: old(ew)@ },
                    hits@,
                    rolls,
                    hits@.len(),
                )).units + hits_resolved(
                    Battle { units: old(units)@, splashes: Seq::empty(), deaths: old(ew)@ },
                    hits@,
                    rolls,
                    hits@.len(),
                ).splashes
                &&& final(ew)@ == hits_resolved(
                    Battle { units: old(units)@, splashes: Seq::empty(), deaths: old(ew)@ },
                    hits@,
                    rolls,
                    hits@.len(),
                ).deaths
            },
        units_in_world(final(units)@),
{
    let mut rolls: Vec<HitRolls> = Vec::new();
    let mut i: usize = 0;
    while i < hits.len()
        invariant
            i <= hits.len(),
            rolls@.len() == i,
            fair(rolls@),
        decreases hits.len() - i,
    {
        let origin = hits[i].0.origin;
        let mut damage: u64 = 0;
        let mut chances: Vec<u64> = Vec::new();
        if origin.0 < units.len() {
            match &units[origin.0] {
                Unit::Building(building) => match &building.tower {
                    Some(tower) => {
                        damage = tower.damage.roll();
                        let mut k: usize = 0;
                        while k < tower.abilities.0.len()
                            invariant
                                forall|j: int|
                                    0 <= j < chances@.len() ==> #[trigger] chances@[j]
                                        < CHANCE_ROLLS,
                            decreases tower.abilities.0.len() - k,
                        {
                            chances.push(roll_between(0, CHANCE_ROLLS - 1));
                            k += 1;
                        }
                    },
                    None => {},
                },
                _ => {},
            }
        }
        let ghost before = rolls@;
        rolls.push(HitRolls { damage, chances });
        proof {
            assert forall|a: int, b: int|
                0 <= a < rolls@.len() && 0 <= b < rolls@[a].chances@.len() implies #[trigger] rolls@[a].chances@[b]
                < CHANCE_ROLLS by {
                if a < before.len() {
                    assert(rolls@[a] == before[a]);
                }
            }
        }
        i += 1;
    }
    projectile_hit_with(hits, &rolls, units, ew);
}

/// The abilities of a hit leave the creep where it is, and every splash of
/// the hit lies where the creep is.
pub proof fn lemma_strike_keeps_place(
    creep: Creep,
    damage: u64,
    abilities: Seq<OnHit>,
    chances: Seq<u64>,
    k: nat,
)
    requires
        k <= abilities.len(),
    ensures
        struck(creep, damage, abilities, chances, k).0.position == creep.position,
        forall|j: int|
            0 <= j < struck(creep, damage, abilities, chances, k).2.len() ==> (
            #[trigger] struck(creep, damage, abilities, chances, k).2[j]).position() == Some(
                creep.position,
            ),
    decreases k,
{
    if k > 0 {
        lemma_strike_keeps_place(creep, damage, abilities, chances, (k - 1) as nat);
    }
}

/// The abilities of a hit leave the effects on the creep's speed paired.
pub proof fn lemma_hit_keeps_pairing(
    creep: Creep,
    damage: u64,
    abilities: Seq<OnHit>,
    chances: Seq<u64>,
    k: nat,
)
    requires
        creep.slows_paired(),
        k <= abilities.len(),
    ensures
        struck(creep, damage, abilities, chances, k).0.slows_paired(),
    decreases k,
{
    if k > 0 {
        lemma_hit_keeps_pairing(creep, damage, abilities, chances, (k - 1) as nat);
        let before = struck(creep, damage, abilities, chances, (k - 1) as nat).0;
        match abilities[k - 1] {
            OnHit::SapphireSlow(amount) => {
                lemma_slow_keeps_pairing(before, amount, 0);
            },
            OnHit::EmeraldPoison { dps, slow, duration } => {
                lemma_poison_keeps_pairing(before, dps, slow, duration, 0);
            },
            _ => {},
        }
    }
}

/// Abilities that are tame leave sound effects sound, and the splashes that
/// they leave are splashes.
pub proof fn lemma_hit_keeps_effects_sound(
    creep: Creep,
    damage: u64,
    abilities: Seq<OnHit>,
    chances: Seq<u64>,
    k: nat,
)
    requires
        creep.effects_sound(),
        k <= abilities.len(),
        forall|j: int| 0 <= j < abilities.len() ==> (#[trigger] abilities[j]).is_tame(),
    ensures
        struck(creep, damage, abilities, chances, k).0.effects_sound(),
        forall|j: int|
            0 <= j < struck(creep, damage, abilities, chances, k).2.len() ==> (
            #[trigger] struck(creep, damage, abilities, chances, k).2[j]) is Splash,
    decreases k,
{
    if k > 0 {
        lemma_hit_keeps_effects_sound(creep, damage, abilities, chances, (k - 1) as nat);
        let before = struck(creep, damage, abilities, chances, (k - 1) as nat).0;
        assert(abilities[k - 1].is_tame());
        match abilities[k - 1] {
            OnHit::SapphireSlow(amount) => {
                lemma_attached_effects_are_sound(before, amount, 0, 0, 0);
            },
            OnHit::EmeraldPoison { dps, slow, duration } => {
                lemma_attached_effects_are_sound(before, 0, dps, slow, duration);
            },
            _ => {},
        }
    }
}

} // verus!
