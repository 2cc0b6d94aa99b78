//! Effects that a hit has on the creep it lands on.

use vstd::prelude::*;
use crate::abilities::Splash;
use crate::creeps::effects::SLOW_LIMIT;
use crate::creeps::Creep;
use crate::math_utils::Position;
use crate::random::roll_between;
use crate::towers::Range;

verus! {

/// One effect of a hit.
#[derive(Clone, Copy, PartialEq, Eq, Structural, Debug)]
pub enum OnHit {
    /// With `chance` in a hundred the damage is multiplied.
    MultiplyDamage { chance: u32, multiplier: u64 },
    /// The creeps around the point of impact are damaged too.
    Splash(SplashEffect, Range),
    /// The creep is slowed by so many percent for a while.
    SapphireSlow(u32),
    /// The creep is poisoned: slowed by `slow` percent and hurt `dps` times a
    /// second, for `duration` milliseconds.
    EmeraldPoison { dps: u32, slow: u32, duration: u32 },
}

/// What a splash does with the damage of the hit that caused it.
#[derive(Clone, Copy, PartialEq, Eq, Structural, Debug)]
pub enum SplashEffect {
    /// Deals `multiplier` thousandths of the damage.
    Multiplier { multiplier: u32 },
}

/// A hit multiplies its damage when its roll, which lies below this number,
/// is at most the chance of the ability.
pub const CHANCE_ROLLS: u64 = 100;

/// `damage * multiplier`, or the largest damage there is where the product
/// is larger.
pub open spec fn multiplied(damage: u64, multiplier: u64) -> u64 {
    if damage * multiplier > u64::MAX {
        u64::MAX
    } else {
        (damage * multiplier) as u64
    }
}

impl SplashEffect {
    /// The damage that a splash deals when the hit that caused it dealt
    /// `damage`.
    pub open spec fn damage_spec(self, damage: u64) -> u64 {
        match self {
            SplashEffect::Multiplier { multiplier } => {
                if (damage * multiplier) / 1000 > u64::MAX {
                    u64::MAX
                } else {
                    ((damage * multiplier) / 1000) as u64
                }
            },
        }
    }

    /// The damage that a splash deals when the hit that caused it dealt
    /// `damage`.
    pub fn damage(&self, damage: u64) -> (dealt: u64)
        ensures
            dealt == self.damage_spec(damage),
    {
        match self {
            SplashEffect::Multiplier { multiplier } => {
                assert(damage * *multiplier <= u128::MAX) by (nonlinear_arith)
                    requires
                        0 <= damage <= u64::MAX,
                        0 <= *multiplier <= u32::MAX,
                ;
                let scaled: u128 = (damage as u128) * (*multiplier as u128) / 1000;
                if scaled > u64::MAX as u128 {
                    u64::MAX
                } else {
                    scaled as u64
                }
            },
        }
    }
}

impl OnHit {
    /// The ability slows by no more than an effect may.
    pub open spec fn is_tame(self) -> bool {
        match self {
            OnHit::SapphireSlow(amount) => amount <= SLOW_LIMIT,
            OnHit::EmeraldPoison { slow, .. } => slow <= SLOW_LIMIT,
            _ => true,
        }
    }

    /// The damage of a hit after this ability, where the hit rolled `roll`
    /// and dealt `damage` before it.
    pub open spec fn damage_after(self, roll: u64, damage: u64) -> u64 {
        match self {
            OnHit::MultiplyDamage { chance, multiplier } => if roll <= chance {
                multiplied(damage, multiplier)
            } else {
                damage
            },
            _ => damage,
        }
    }

    /// The creep that was hit, after this ability.
    pub open spec fn creep_after(self, creep: Creep) -> Creep {
        match self {
            OnHit::SapphireSlow(amount) => creep.slow_attached(amount),
            OnHit::EmeraldPoison { dps, slow, duration } => creep.poison_attached(
                dps,
                slow,
                duration,
            ),
            _ => creep,
        }
    }

    /// The splash that this ability leaves at `position` after a hit that
    /// dealt `damage`, if it leaves one.
    pub open spec fn splash_of(self, damage: u64, position: Position) -> Option<Splash> {
        match self {
            OnHit::Splash(effect, range) => Some(Splash { position, effect, range, damage }),
            _ => None,
        }
    }

    /// Applies the ability to a hit on `creep` at `position` that rolled
    /// `roll` and deals `damage` so far.
    pub fn apply_rolled(
        self,
        roll: u64,
        creep: &mut Creep,
        damage: &mut u64,
        position: Position,
    ) -> (splash: Option<Splash>)
        ensures
            *final(damage) == self.damage_after(roll, *old(damage)),
            *final(creep) == self.creep_after(*old(creep)),
            splash == self.splash_of(*old(damage), position),
    {
        match self {
            OnHit::MultiplyDamage { chance, multiplier } => {
                if roll <= chance as u64 {
                    assert(*damage * multiplier <= u128::MAX) by (nonlinear_arith)
                        requires
                            0 <= *damage <= u64::MAX,
                            0 <= multiplier <= u64::MAX,
                    ;
                    let product: u128 = (*damage as u128) * (multiplier as u128);
                    *damage = if product > u64::MAX as u128 {
                        u64::MAX
                    } else {
                        product as u64
                    };
                }
                None
            },
            OnHit::Splash(effect, range) => Some(
                Splash { position, effect, range, damage: *damage },
            ),
            OnHit::SapphireSlow(amount) => {
                creep.attach_slow(amount);
                None
            },
            OnHit::EmeraldPoison { dps, slow, duration } => {
                creep.attach_poison(dps, slow, duration);
                None
            },
        }
    }

    /// Applies the ability to a hit on `creep` at `position` that deals
    /// `damage` so far, with a roll of its own.
    pub fn apply(self, creep: &mut Creep, damage: &mut u64, position: Position) -> (splash: Option<
        Splash,
    >)
        ensures
            exists|roll: u64|
                roll < CHANCE_ROLLS && *final(damage) == #[trigger] self.damage_after(
                    roll,
                    *old(damage),
                ),
            *final(creep) == self.creep_after(*old(creep)),
            splash == self.splash_of(*old(damage), position),
    {
        let roll = roll_between(0, CHANCE_ROLLS - 1);
        let splash = self.apply_rolled(roll, creep, damage, position);
        assert(*damage == self.damage_after(roll, *old(damage)));
        splash
    }
}

} // verus!
