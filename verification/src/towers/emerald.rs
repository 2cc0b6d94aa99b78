//! Emeralds: their hits poison.

use vstd::prelude::*;
use crate::creeps::effects::poison_period;
use crate::creeps::{Creep, Death};
use crate::entity::Entity;
use crate::timer::Timer;
use crate::world::Unit;
use crate::abilities::on_hit::OnHit;
use crate::towers::{
    AttackSpeed, Damage, GemQuality, Range, TowerBundle, TowerStats, BASE_TOWER_SPEED,
};

verus! {

/// The stats of a emerald of each quality.
pub open spec fn stats(quality: GemQuality) -> TowerStats {
    match quality {
        GemQuality::Chipped => TowerStats {
            damage: Damage::Range(4, 7),
            speed: AttackSpeed((BASE_TOWER_SPEED - 200) as u32),
            range: Range(5000),
            abilities: seq![OnHit::EmeraldPoison { dps: 2, slow: 15, duration: 3000 }],
            auras: Seq::empty(),
        },
        GemQuality::Flawed => TowerStats {
            damage: Damage::Range(10, 13),
            speed: AttackSpeed(BASE_TOWER_SPEED),
            range: Range(5500),
            abilities: seq![OnHit::EmeraldPoison { dps: 3, slow: 20, duration: 4000 }],
            auras: Seq::empty(),
        },
        GemQuality::Normal => TowerStats {
            damage: Damage::Range(15, 25),
            speed: AttackSpeed(BASE_TOWER_SPEED),
            range: Range(6000),
            abilities: seq![OnHit::EmeraldPoison { dps: 5, slow: 25, duration: 5000 }],
            auras: Seq::empty(),
        },
        GemQuality::Flawless => TowerStats {
            damage: Damage::Range(30, 37),
            speed: AttackSpeed(BASE_TOWER_SPEED),
            range: Range(7000),
            abilities: seq![OnHit::EmeraldPoison { dps: 8, slow: 30, duration: 6000 }],
            auras: Seq::empty(),
        },
        GemQuality::Perfect => TowerStats {
            damage: Damage::Range(80, 95),
            speed: AttackSpeed(BASE_TOWER_SPEED),
            range: Range(7000),
            abilities: seq![OnHit::EmeraldPoison { dps: 16, slow: 50, duration: 8000 }],
            auras: Seq::empty(),
        },
    }
}

/// A new emerald tower of the given quality.
pub fn tower(quality: GemQuality) -> (bundle: TowerBundle)
    ensures
        bundle.stats() == stats(quality),
        bundle.is_new(),
{
    let bundle = match quality {
        GemQuality::Chipped => TowerBundle::new(
            Damage::Range(4, 7),
            AttackSpeed(BASE_TOWER_SPEED - 200),
            Range(5000),
            vec![OnHit::EmeraldPoison { dps: 2, slow: 15, duration: 3000 }],
            Vec::new(),
        ),
        GemQuality::Flawed => TowerBundle::new(
            Damage::Range(10, 13),
            AttackSpeed(BASE_TOWER_SPEED),
            Range(5500),
            vec![OnHit::EmeraldPoison { dps: 3, slow: 20, duration: 4000 }],
            Vec::new(),
        ),
        GemQuality::Normal => TowerBundle::new(
            Damage::Range(15, 25),
            AttackSpeed(BASE_TOWER_SPEED),
            Range(6000),
            vec![OnHit::EmeraldPoison { dps: 5, slow: 25, duration: 5000 }],
            Vec::new(),
        ),
        GemQuality::Flawless => TowerBundle::new(
            Damage::Range(30, 37),
            AttackSpeed(BASE_TOWER_SPEED),
            Range(7000),
            vec![OnHit::EmeraldPoison { dps: 8, slow: 30, duration: 6000 }],
            Vec::new(),
        ),
        GemQuality::Perfect => TowerBundle::new(
            Damage::Range(80, 95),
            AttackSpeed(BASE_TOWER_SPEED),
            Range(7000),
            vec![OnHit::EmeraldPoison { dps: 16, slow: 50, duration: 8000 }],
            Vec::new(),
        ),
    };
    proof {
        assert(bundle.stats().abilities =~= stats(quality).abilities);
        assert(bundle.stats().auras =~= stats(quality).auras);
    }
    bundle
}

/// The units once every poison that was waiting weighs on its creep's speed.
pub open spec fn poisons_applied(units: Seq<Unit>) -> Seq<Unit> {
    Seq::new(units.len(), |i: int| Unit::on_creep(units[i], |c: Creep| c.poison_applied()))
}

/// The units after `dt` more milliseconds of every poison.
pub open spec fn poisons_ticked(units: Seq<Unit>, dt: u32) -> Seq<Unit> {
    Seq::new(units.len(), |i: int| Unit::on_creep(units[i], |c: Creep| c.poison_ticked(dt)))
}

/// A creep is slowed by `slow` percent and loses one life each time the
/// damage timer completes, until the duration timer runs out.
#[derive(Clone, Copy, PartialEq, Eq, Structural, Debug)]
pub struct Poison {
    pub slow: u32,
    pub duration_timer: Timer,
    pub damage_timer: Timer,
}

impl Poison {
    /// The poison as it is when a hit has just caused it.
    pub open spec fn fresh(dps: u32, slow: u32, duration: u32) -> Poison {
        Poison {
            slow,
            duration_timer: Timer {
                elapsed: 0,
                duration,
                repeating: false,
                finished: false,
                times_finished: 0,
            },
            damage_timer: Timer {
                elapsed: 0,
                duration: poison_period(dps),
                repeating: true,
                finished: false,
                times_finished: 0,
            },
        }
    }

    /// A poison that starts now, lasts `duration` milliseconds, slows by
    /// `slow` percent and bites `dps` times a second.
    pub fn new(dps: u32, slow: u32, duration: u32) -> (poison: Poison)
        ensures
            poison == Poison::fresh(dps, slow, duration),
    {
        let period: u32 = if dps == 0 {
            u32::MAX
        } else {
            1000 / dps
        };
        Poison {
            slow,
            duration_timer: Timer::new(duration, false),
            damage_timer: Timer::new(period, true),
        }
    }

    /// Makes every poison that was attached since the last call weigh on its
    /// creep's speed.
    pub fn added(units: &mut Vec<Unit>)
        ensures
            final(units)@ == poisons_applied(old(units)@),
    {
        let n = units.len();
        let mut i: usize = 0;
        while i < n
            invariant
                i <= n,
                n == units@.len(),
                n == old(units)@.len(),
                forall|j: int|
                    0 <= j < i ==> units@[j] == Unit::on_creep(
                        old(units)@[j],
                        |c: Creep| c.poison_applied(),
                    ),
                forall|j: int| i <= j < n ==> units@[j] == old(units)@[j],
            decreases n - i,
        {
            match &mut units[i] {
                Unit::Creep(creep) => {
                    creep.apply_poison();
                },
                _ => {},
            }
            i += 1;
        }
        assert(units@ =~= poisons_applied(old(units)@));
    }

    /// Lets `dt` milliseconds pass for every poison: those that have run out
    /// are lifted, the others bite when their time has come, and the creeps
    /// that die of it are recorded.
    pub fn system(dt: u32, units: &mut Vec<Unit>, ew: &mut Vec<Death>)
        ensures
            final(units)@ == poisons_ticked(old(units)@, dt),
            final(ew)@ == poisoned_deaths(old(units)@, dt, old(ew)@, old(units)@.len()),
    {
        let n = units.len();
        let mut i: usize = 0;
        while i < n
            invariant
                i <= n,
                n == units@.len(),
                n == old(units)@.len(),
                forall|j: int|
                    0 <= j < i ==> units@[j] == Unit::on_creep(
                        old(units)@[j],
                        |c: Creep| c.poison_ticked(dt),
                    ),
                forall|j: int| i <= j < n ==> units@[j] == old(units)@[j],
                ew@ == poisoned_deaths(old(units)@, dt, old(ew)@, i as nat),
            decreases n - i,
        {
            match &mut units[i] {
                Unit::Creep(creep) => {
                    creep.tick_poison(dt, Entity(i), ew);
                },
                _ => {},
            }
            i += 1;
        }
        assert(units@ =~= poisons_ticked(old(units)@, dt));
    }
}

/// The deaths on record after the poisons of the first `n` units have had
/// `dt` more milliseconds, in the order of the units.
pub open spec fn poisoned_deaths(units: Seq<Unit>, dt: u32, deaths: Seq<Death>, n: nat) -> Seq<
    Death,
>
    decreases n,
{
    if n == 0 {
        deaths
    } else {
        let before = poisoned_deaths(units, dt, deaths, (n - 1) as nat);
        match units[n - 1] {
            Unit::Creep(creep) => creep.poison_deaths(dt, Entity((n - 1) as usize), before),
            _ => before,
        }
    }
}

} // verus!
