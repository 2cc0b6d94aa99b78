//! What every tick keeps true of the effects on the creeps.
//!
//! The speed of a creep carries the percent of each slow and poison that has
//! been applied to it, once, and of nothing else. This holds of a new game
//! and no tick breaks it, as long as no ability slows by more than
//! [`SLOW_LIMIT`](crate::creeps::effects::SLOW_LIMIT) percent.

use vstd::prelude::*;
use crate::abilities::aura::{all_seen, gifts_given};
use crate::abilities::splashed;
use crate::buffs::buffs_applied;
use crate::creeps::effects::lemma_effects_stay_sound;
use crate::creeps::hits::{
    creep_of, hit_resolved, hits_resolved, lemma_hit_keeps_effects_sound, struck, tower_of,
    Battle, HitRolls,
};
use crate::creeps::spawning::{is_spawned_unit, spawn_points};
use crate::creeps::{buried, leaks, walked, Death};
use crate::grid::Slot;
use crate::level_1::LevelState;
use crate::towers::attacking::{attacked_all, volleys};
use crate::towers::construction::{built, chosen, is_revealed_unit};
use crate::towers::emerald::{poisoned_deaths, poisons_applied, poisons_ticked};
use crate::towers::projectiles::flown_all;
use crate::towers::sapphire::{slows_applied, slows_ticked};
use crate::towers::targeting::retargeted_all;
use crate::towers::{BuildGem, ChooseGem, Gem, ProjectileHit};
use crate::world::{
    aura_pass, fought, hits_of, idled, is_entry_of, is_spawn_of, Unit, WorldView,
};

verus! {

/// The effects on the unit are sound if it is a creep, and its abilities
/// are tame if it is a tower.
pub open spec fn sound_unit(unit: Unit) -> bool {
    match unit {
        Unit::Creep(creep) => creep.effects_sound(),
        Unit::Building(building) => match building.tower {
            Some(tower) => forall|k: int|
                0 <= k < tower.abilities.0@.len() ==> (#[trigger] tower.abilities.0@[k]).is_tame(),
            None => true,
        },
        _ => true,
    }
}

/// The effects on every creep are sound and the abilities of every tower
/// are tame.
pub open spec fn sound(units: Seq<Unit>) -> bool {
    forall|i: int| 0 <= i < units.len() ==> sound_unit(#[trigger] units[i])
}

/// No gem has an ability that slows by more than an effect may.
pub proof fn lemma_gems_are_tame(gem: Gem)
    ensures
        forall|k: int|
            0 <= k < gem.stats().abilities.len() ==> (#[trigger] gem.stats().abilities[k]).is_tame(),
{
}

/// Entering a state keeps the units sound.
pub proof fn lemma_entry_is_sound(entered: Seq<Unit>, units: Seq<Unit>, state: Option<LevelState>)
    requires
        sound(units),
        is_entry_of(entered, units, state),
    ensures
        sound(entered),
{
    assert forall|i: int| 0 <= i < entered.len() implies sound_unit(#[trigger] entered[i]) by {
        if state == Some(LevelState::Choosing) {
            assert(is_revealed_unit(entered[i], units[i]));
            assert(sound_unit(units[i]));
            match (units[i], entered[i]) {
                (Unit::Building(was), Unit::Building(is)) => {
                    if was.just_built is Some {
                        let gem = choose|gem: Gem| is.is_revealed_as(was, gem);
                        lemma_gems_are_tame(gem);
                    }
                },
                _ => {},
            }
        } else if state == Some(LevelState::Spawning) {
            if i < units.len() {
                assert(sound_unit(units[i]));
            }
        } else {
            assert(sound_unit(units[i]));
        }
    }
}

/// Placing buildings keeps the units sound.
pub proof fn lemma_built_is_sound(
    slots: Map<(i32, i32), Slot>,
    units: Seq<Unit>,
    events: Seq<BuildGem>,
    k: nat,
)
    requires
        sound(units),
    ensures
        sound(built(slots, units, events, k).1),
    decreases k,
{
    if k > 0 {
        lemma_built_is_sound(slots, units, events, (k - 1) as nat);
        let before = built(slots, units, events, (k - 1) as nat).1;
        let after = built(slots, units, events, k).1;
        assert forall|i: int| 0 <= i < after.len() implies sound_unit(#[trigger] after[i]) by {
            if i < before.len() {
                assert(sound_unit(before[i]));
            }
        }
    }
}

/// Choosing keeps the units sound.
pub proof fn lemma_chosen_is_sound(
    units: Seq<Unit>,
    slots: Map<(i32, i32), Slot>,
    events: Seq<ChooseGem>,
    k: nat,
)
    requires
        sound(units),
    ensures
        sound(chosen(units, slots, events, k)),
    decreases k,
{
    if k > 0 {
        lemma_chosen_is_sound(units, slots, events, (k - 1) as nat);
        let before = chosen(units, slots, events, (k - 1) as nat);
        let after = chosen(units, slots, events, k);
        assert forall|i: int| 0 <= i < after.len() implies sound_unit(#[trigger] after[i]) by {
            assert(sound_unit(before[i]));
        }
    }
}

/// The auras and the buffs keep the units sound.
pub proof fn lemma_aura_pass_is_sound(units: Seq<Unit>)
    requires
        sound(units),
    ensures
        sound(aura_pass(units)),
{
    let a = gifts_given(units, true, false);
    let b = gifts_given(a, false, true);
    let c = all_seen(b);
    let d = buffs_applied(c);
    assert forall|i: int| 0 <= i < d.len() implies sound_unit(#[trigger] d[i]) by {
        assert(sound_unit(units[i]));
        assert(sound_unit(a[i]));
        assert(sound_unit(b[i]));
        assert(sound_unit(c[i]));
    }
}

/// The flight of the shots keeps the units sound.
pub proof fn lemma_flown_is_sound(units: Seq<Unit>, dt: u32)
    requires
        sound(units),
    ensures
        sound(flown_all(units, dt)),
{
    assert forall|i: int| 0 <= i < units.len() implies sound_unit(
        #[trigger] flown_all(units, dt)[i],
    ) by {
        assert(sound_unit(units[i]));
    }
}

/// The splashes keep the units sound, and leave as many units as there
/// were.
pub proof fn lemma_splashed_is_sound(units: Seq<Unit>, deaths: Seq<Death>, n: nat)
    requires
        sound(units),
        n <= units.len(),
    ensures
        sound(splashed(units, deaths, n).0),
        splashed(units, deaths, n).0.len() == units.len(),
    decreases n,
{
    if n > 0 {
        lemma_splashed_is_sound(units, deaths, (n - 1) as nat);
        let before = splashed(units, deaths, (n - 1) as nat).0;
        let after = splashed(units, deaths, n).0;
        assert forall|i: int| 0 <= i < after.len() implies sound_unit(#[trigger] after[i]) by {
            assert(sound_unit(before[i]));
        }
    }
}

/// A tick outside the spawning keeps the units sound.
pub proof fn lemma_idled_is_sound(units: Seq<Unit>, dt: u32)
    requires
        sound(units),
    ensures
        sound(idled(units, dt)),
{
    lemma_aura_pass_is_sound(units);
    lemma_flown_is_sound(aura_pass(units), dt);
    let flown = flown_all(aura_pass(units), dt);
    lemma_splashed_is_sound(flown, Seq::empty(), flown.len());
}

/// The spawners keep the units sound: a new creep has no effect on it.
pub proof fn lemma_spawn_is_sound(
    spawned: Seq<Unit>,
    units: Seq<Unit>,
    slots: Map<(i32, i32), Slot>,
    level: u32,
    dt: u32,
)
    requires
        sound(units),
        is_spawn_of(spawned, units, slots, level, dt),
    ensures
        sound(spawned),
{
    let points = spawn_points(units, dt, units.len());
    assert forall|i: int| 0 <= i < spawned.len() implies sound_unit(#[trigger] spawned[i]) by {
        if i < units.len() {
            assert(sound_unit(units[i]));
        } else {
            let k = i - units.len();
            assert(is_spawned_unit(spawned[units.len() + k], slots, points[k], level));
        }
    }
}

/// Walking and the run of the effects keep the units sound.
pub proof fn lemma_suffered_is_sound(units: Seq<Unit>, dt: u32)
    requires
        sound(units),
    ensures
        sound(
            poisons_ticked(poisons_applied(slows_ticked(slows_applied(walked(units, dt)), dt)), dt),
        ),
{
    let a = walked(units, dt);
    let b = slows_applied(a);
    let c = slows_ticked(b, dt);
    let d = poisons_applied(c);
    let e = poisons_ticked(d, dt);
    assert forall|i: int| 0 <= i < e.len() implies sound_unit(#[trigger] e[i]) by {
        assert(sound_unit(units[i]));
        match units[i] {
            Unit::Creep(creep) => {
                let walked = creep.moved(dt);
                lemma_effects_stay_sound(walked, dt);
                lemma_effects_stay_sound(walked.slow_applied(), dt);
                lemma_effects_stay_sound(walked.slow_applied().slow_ticked(dt), dt);
                lemma_effects_stay_sound(
                    walked.slow_applied().slow_ticked(dt).poison_applied(),
                    dt,
                );
            },
            _ => {},
        }
    }
}

/// The shots that towers fire are shots.
pub proof fn lemma_volleys_are_shots(units: Seq<Unit>, dt: u32, n: nat)
    requires
        n <= units.len(),
    ensures
        forall|j: int| 0 <= j < volleys(units, dt, n).len() ==> (#[trigger] volleys(units, dt, n)[j])
            is Shot,
    decreases n,
{
    if n > 0 {
        lemma_volleys_are_shots(units, dt, (n - 1) as nat);
    }
}

/// Aiming and shooting keep the units sound.
pub proof fn lemma_attacked_is_sound(units: Seq<Unit>, dt: u32)
    requires
        sound(units),
    ensures
        sound(attacked_all(retargeted_all(units), dt)),
{
    let aimed = retargeted_all(units);
    let shot = attacked_all(aimed, dt);
    lemma_volleys_are_shots(aimed, dt, aimed.len());
    assert forall|i: int| 0 <= i < shot.len() implies sound_unit(#[trigger] shot[i]) by {
        if i < units.len() {
            assert(sound_unit(units[i]));
            assert(sound_unit(aimed[i]));
        } else {
            assert(shot[i] == volleys(aimed, dt, aimed.len())[i - aimed.len()]);
        }
    }
}

/// The hits keep the units sound, leave as many units as there were, and
/// leave nothing but splashes behind.
pub proof fn lemma_hits_are_sound(
    battle: Battle,
    hits: Seq<ProjectileHit>,
    rolls: Seq<HitRolls>,
    k: nat,
)
    requires
        sound(battle.units),
        sound(battle.splashes),
    ensures
        sound(hits_resolved(battle, hits, rolls, k).units),
        sound(hits_resolved(battle, hits, rolls, k).splashes),
        hits_resolved(battle, hits, rolls, k).units.len() == battle.units.len(),
    decreases k,
{
    if k > 0 {
        lemma_hits_are_sound(battle, hits, rolls, (k - 1) as nat);
        let before = hits_resolved(battle, hits, rolls, (k - 1) as nat);
        let hit = hits[k - 1];
        let after = hit_resolved(before, hit, rolls[k - 1].damage, rolls[k - 1].chances@);
        match (creep_of(before.units, hit.0.target), tower_of(before.units, hit.0.origin)) {
            (Some(creep), Some(tower)) => {
                assert(sound_unit(before.units[hit.0.target.0 as int]));
                assert(sound_unit(before.units[hit.0.origin.0 as int]));
                lemma_hit_keeps_effects_sound(
                    creep,
                    tower.damage.rolled(rolls[k - 1].damage),
                    tower.abilities.0@,
                    rolls[k - 1].chances@,
                    tower.abilities.0@.len(),
                );
                let left = struck(
                    creep,
                    tower.damage.rolled(rolls[k - 1].damage),
                    tower.abilities.0@,
                    rolls[k - 1].chances@,
                    tower.abilities.0@.len(),
                ).2;
                assert forall|i: int| 0 <= i < after.units.len() implies sound_unit(
                    #[trigger] after.units[i],
                ) by {
                    assert(sound_unit(before.units[i]));
                }
                assert forall|i: int| 0 <= i < after.splashes.len() implies sound_unit(
                    #[trigger] after.splashes[i],
                ) by {
                    if i < before.splashes.len() {
                        assert(sound_unit(before.splashes[i]));
                    } else {
                        assert(after.splashes[i] == left[i - before.splashes.len()]);
                        assert(left[i - before.splashes.len()] is Splash);
                    }
                }
            },
            _ => {},
        }
    }
}

/// The deaths on record in a tick of fighting when the hits are about to be
/// resolved: the creeps that have walked off and those that the poison has
/// killed.
pub open spec fn fought_deaths_before_hits(spawned: Seq<Unit>, dt: u32) -> Seq<Death> {
    let poisoned = poisons_applied(slows_ticked(slows_applied(walked(spawned, dt)), dt));
    poisoned_deaths(
        poisoned,
        dt,
        leaks(spawned, spawned.len()),
        poisoned.len(),
    )
}

/// A tick of fighting keeps the units sound.
pub proof fn lemma_fought_is_sound(spawned: Seq<Unit>, rolls: Seq<HitRolls>, dt: u32)
    requires
        sound(spawned),
    ensures
        sound(fought(spawned, rolls, dt).0),
{
    lemma_suffered_is_sound(spawned, dt);
    let bitten = poisons_ticked(
        poisons_applied(slows_ticked(slows_applied(walked(spawned, dt)), dt)),
        dt,
    );
    lemma_aura_pass_is_sound(bitten);
    lemma_attacked_is_sound(aura_pass(bitten), dt);
    let shot = attacked_all(retargeted_all(aura_pass(bitten)), dt);
    lemma_flown_is_sound(shot, dt);
    let flown = flown_all(shot, dt);
    let start = Battle {
        units: flown,
        splashes: Seq::empty(),
        deaths: fought_deaths_before_hits(spawned, dt),
    };
    let hits = hits_of(spawned, dt);
    lemma_hits_are_sound(start, hits, rolls, hits.len());
    let battle = hits_resolved(start, hits, rolls, hits.len());
    let left = battle.units + battle.splashes;
    assert forall|i: int| 0 <= i < left.len() implies sound_unit(#[trigger] left[i]) by {
        if i < battle.units.len() {
            assert(sound_unit(battle.units[i]));
        } else {
            assert(sound_unit(battle.splashes[i - battle.units.len()]));
        }
    }
    lemma_splashed_is_sound(left, battle.deaths, left.len());
}

/// No tick breaks the soundness of the effects: the speed of every creep
/// carries what has been applied to it, and nothing else, after the tick as
/// before it.
pub proof fn lemma_tick_keeps_effects_sound(
    world: WorldView,
    entered: Seq<Unit>,
    spawned: Seq<Unit>,
    rolls: Seq<HitRolls>,
    dt: u32,
)
    requires
        sound(world.units),
        is_entry_of(entered, world.units, world.level_state.queued),
        world.level_state.applied().current == LevelState::Spawning ==> is_spawn_of(
            spawned,
            entered,
            world.slots,
            world.level,
            dt,
        ),
    ensures
        sound(world.ticked(entered, spawned, rolls, dt).units),
{
    lemma_entry_is_sound(entered, world.units, world.level_state.queued);
    let fresh = world.level_state.queued == Some(LevelState::Choosing);
    match world.level_state.applied().current {
        LevelState::Building => {
            let events = if fresh {
                Seq::empty()
            } else {
                world.build_events
            };
            lemma_built_is_sound(world.slots, entered, events, events.len());
            lemma_idled_is_sound(built(world.slots, entered, events, events.len()).1, dt);
        },
        LevelState::Choosing => {
            let events = if fresh {
                Seq::empty()
            } else {
                world.choose_events
            };
            lemma_chosen_is_sound(entered, world.slots, events, events.len());
            lemma_idled_is_sound(chosen(entered, world.slots, events, events.len()), dt);
        },
        LevelState::Spawning => {
            lemma_spawn_is_sound(spawned, entered, world.slots, world.level, dt);
            lemma_fought_is_sound(spawned, rolls, dt);
            let (units, deaths) = fought(spawned, rolls, dt);
            assert forall|i: int| 0 <= i < units.len() implies sound_unit(
                #[trigger] buried(units, deaths)[i],
            ) by {
                assert(sound_unit(units[i]));
            }
        },
    }
}

} // verus!
