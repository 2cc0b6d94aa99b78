//! Sapphires: their hits slow.

use vstd::prelude::*;
use crate::creeps::Creep;
use crate::timer::Timer;
use crate::world::Unit;
use crate::abilities::on_hit::OnHit;
use crate::towers::{
    AttackSpeed, Damage, GemQuality, Range, TowerBundle, TowerStats, BASE_TOWER_SPEED,
};

verus! {

/// The stats of a sapphire of each quality.
pub open spec fn stats(quality: GemQuality) -> TowerStats {
    match quality {
        GemQuality::Chipped => TowerStats {
            damage: Damage::Range(5, 8),
            speed: AttackSpeed((BASE_TOWER_SPEED - 200) as u32),
            range: Range(5500),
            abilities: seq![OnHit::SapphireSlow(20)],
            auras: Seq::empty(),
        },
        GemQuality::Flawed => TowerStats {
            damage: Damage::Range(10, 14),
            speed: AttackSpeed(BASE_TOWER_SPEED),
            range: Range(7500),
            abilities: seq![OnHit::SapphireSlow(25)],
            auras: Seq::empty(),
        },
        GemQuality::Normal => TowerStats {
            damage: Damage::Range(16, 22),
            speed: AttackSpeed(BASE_TOWER_SPEED),
            range: Range(8000),
            abilities: seq![OnHit::SapphireSlow(30)],
            auras: Seq::empty(),
        },
        GemQuality::Flawless => TowerStats {
            damage: Damage::Range(30, 40),
            speed: AttackSpeed(BASE_TOWER_SPEED),
            range: Range(8500),
            abilities: seq![OnHit::SapphireSlow(35)],
            auras: Seq::empty(),
        },
        GemQuality::Perfect => TowerStats {
            damage: Damage::Range(60, 80),
            speed: AttackSpeed(BASE_TOWER_SPEED),
            range: Range(14000),
            abilities: seq![OnHit::SapphireSlow(40)],
            auras: Seq::empty(),
        },
    }
}

/// A new sapphire tower of the given quality.
pub fn tower(quality: GemQuality) -> (bundle: TowerBundle)
    ensures
        bundle.stats() == stats(quality),
        bundle.is_new(),
{
    let bundle = match quality {
        GemQuality::Chipped => TowerBundle::new(
            Damage::Range(5, 8),
            AttackSpeed(BASE_TOWER_SPEED - 200),
            Range(5500),
            vec![OnHit::SapphireSlow(20)],
            Vec::new(),
        ),
        GemQuality::Flawed => TowerBundle::new(
            Damage::Range(10, 14),
            AttackSpeed(BASE_TOWER_SPEED),
            Range(7500),
            vec![OnHit::SapphireSlow(25)],
            Vec::new(),
        ),
        GemQuality::Normal => TowerBundle::new(
            Damage::Range(16, 22),
            AttackSpeed(BASE_TOWER_SPEED),
            Range(8000),
            vec![OnHit::SapphireSlow(30)],
            Vec::new(),
        ),
        GemQuality::Flawless => TowerBundle::new(
            Damage::Range(30, 40),
            AttackSpeed(BASE_TOWER_SPEED),
            Range(8500),
            vec![OnHit::SapphireSlow(35)],
            Vec::new(),
        ),
        GemQuality::Perfect => TowerBundle::new(
            Damage::Range(60, 80),
            AttackSpeed(BASE_TOWER_SPEED),
            Range(14000),
            vec![OnHit::SapphireSlow(40)],
            Vec::new(),
        ),
    };
    proof {
        assert(bundle.stats().abilities =~= stats(quality).abilities);
        assert(bundle.stats().auras =~= stats(quality).auras);
    }
    bundle
}

/// The units once every slow that was waiting weighs on its creep's speed.
pub open spec fn slows_applied(units: Seq<Unit>) -> Seq<Unit> {
    Seq::new(units.len(), |i: int| Unit::on_creep(units[i], |c: Creep| c.slow_applied()))
}

/// The units after `dt` more milliseconds of every slow.
pub open spec fn slows_ticked(units: Seq<Unit>, dt: u32) -> Seq<Unit> {
    Seq::new(units.len(), |i: int| Unit::on_creep(units[i], |c: Creep| c.slow_ticked(dt)))
}

/// Milliseconds for which a sapphire's hit slows a creep.
pub const SLOW_DURATION: u32 = 4000;

/// A creep is slowed by so many percent until the timer runs out.
#[derive(Clone, Copy, PartialEq, Eq, Structural, Debug)]
pub struct Slowed(pub u32, pub Timer);

impl Slowed {
    /// The slow of `amount` percent as it is when a hit has just caused it.
    pub open spec fn fresh(amount: u32) -> Slowed {
        Slowed(
            amount,
            Timer {
                elapsed: 0,
                duration: SLOW_DURATION,
                repeating: false,
                finished: false,
                times_finished: 0,
            },
        )
    }

    /// A slow of `amount` percent that starts now.
    pub fn new(amount: u32) -> (slowed: Slowed)
        ensures
            slowed == Slowed::fresh(amount),
    {
        Slowed(amount, Timer::new(SLOW_DURATION, false))
    }

    /// Makes every slow that was attached since the last call weigh on its
    /// creep's speed.
    pub fn added(units: &mut Vec<Unit>)
        ensures
            final(units)@ == slows_applied(old(units)@),
    {
        let n = units.len();
        let mut i: usize = 0;
        while i < n
            invariant
                i <= n,
                n == units@.len(),
                n == old(units)@.len(),
                forall|j: int|
                    0 <= j < i ==> units@[j] == Unit::on_creep(
                        old(units)@[j],
                        |c: Creep| c.slow_applied(),
                    ),
                forall|j: int| i <= j < n ==> units@[j] == old(units)@[j],
            decreases n - i,
        {
            match &mut units[i] {
                Unit::Creep(creep) => {
                    creep.apply_slow();
                },
                _ => {},
            }
            i += 1;
        }
        assert(units@ =~= slows_applied(old(units)@));
    }

    /// Lets `dt` milliseconds pass for every slow, and lifts those that have
    /// run out.
    pub fn system(dt: u32, units: &mut Vec<Unit>)
        ensures
            final(units)@ == slows_ticked(old(units)@, dt),
    {
        let n = units.len();
        let mut i: usize = 0;
        while i < n
            invariant
                i <= n,
                n == units@.len(),
                n == old(units)@.len(),
                forall|j: int|
                    0 <= j < i ==> units@[j] == Unit::on_creep(
                        old(units)@[j],
                        |c: Creep| c.slow_ticked(dt),
                    ),
                forall|j: int| i <= j < n ==> units@[j] == old(units)@[j],
            decreases n - i,
        {
            match &mut units[i] {
                Unit::Creep(creep) => {
                    creep.tick_slow(dt);
                },
                _ => {},
            }
            i += 1;
        }
        assert(units@ =~= slows_ticked(old(units)@, dt));
    }
}

} // verus!
