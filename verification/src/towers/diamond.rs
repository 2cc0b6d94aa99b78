//! Diamonds: strong single shots that now and then hit twice as hard.

use vstd::prelude::*;
use crate::abilities::on_hit::OnHit;
use crate::towers::{
    AttackSpeed, Damage, GemQuality, Range, TowerBundle, TowerStats, BASE_TOWER_SPEED,
};

verus! {

/// The stats of a diamond of each quality.
pub open spec fn stats(quality: GemQuality) -> TowerStats {
    match quality {
        GemQuality::Chipped => TowerStats {
            damage: Damage::Range(8, 12),
            speed: AttackSpeed((BASE_TOWER_SPEED - 200) as u32),
            range: Range(5000),
            abilities: seq![OnHit::MultiplyDamage { chance: 25, multiplier: 2 }],
            auras: Seq::empty(),
        },
        GemQuality::Flawed => TowerStats {
            damage: Damage::Range(16, 18),
            speed: AttackSpeed(BASE_TOWER_SPEED),
            range: Range(5500),
            abilities: seq![OnHit::MultiplyDamage { chance: 25, multiplier: 2 }],
            auras: Seq::empty(),
        },
        GemQuality::Normal => TowerStats {
            damage: Damage::Range(30, 37),
            speed: AttackSpeed(BASE_TOWER_SPEED),
            range: Range(6000),
            abilities: seq![OnHit::MultiplyDamage { chance: 25, multiplier: 2 }],
            auras: Seq::empty(),
        },
        GemQuality::Flawless => TowerStats {
            damage: Damage::Range(58, 65),
            speed: AttackSpeed(BASE_TOWER_SPEED),
            range: Range(6500),
            abilities: seq![OnHit::MultiplyDamage { chance: 25, multiplier: 2 }],
            auras: Seq::empty(),
        },
        GemQuality::Perfect => TowerStats {
            damage: Damage::Range(140, 150),
            speed: AttackSpeed(BASE_TOWER_SPEED),
            range: Range(7500),
            abilities: seq![OnHit::MultiplyDamage { chance: 25, multiplier: 2 }],
            auras: Seq::empty(),
        },
    }
}

/// A new diamond tower of the given quality.
pub fn tower(quality: GemQuality) -> (bundle: TowerBundle)
    ensures
        bundle.stats() == stats(quality),
        bundle.is_new(),
{
    let bundle = match quality {
        GemQuality::Chipped => TowerBundle::new(
            Damage::Range(8, 12),
            AttackSpeed(BASE_TOWER_SPEED - 200),
            Range(5000),
            vec![OnHit::MultiplyDamage { chance: 25, multiplier: 2 }],
            Vec::new(),
        ),
        GemQuality::Flawed => TowerBundle::new(
            Damage::Range(16, 18),
            AttackSpeed(BASE_TOWER_SPEED),
            Range(5500),
            vec![OnHit::MultiplyDamage { chance: 25, multiplier: 2 }],
            Vec::new(),
        ),
        GemQuality::Normal => TowerBundle::new(
            Damage::Range(30, 37),
            AttackSpeed(BASE_TOWER_SPEED),
            Range(6000),
            vec![OnHit::MultiplyDamage { chance: 25, multiplier: 2 }],
            Vec::new(),
        ),
        GemQuality::Flawless => TowerBundle::new(
            Damage::Range(58, 65),
            AttackSpeed(BASE_TOWER_SPEED),
            Range(6500),
            vec![OnHit::MultiplyDamage { chance: 25, multiplier: 2 }],
            Vec::new(),
        ),
        GemQuality::Perfect => TowerBundle::new(
            Damage::Range(140, 150),
            AttackSpeed(BASE_TOWER_SPEED),
            Range(7500),
            vec![OnHit::MultiplyDamage { chance: 25, multiplier: 2 }],
            Vec::new(),
        ),
    };
    proof {
        assert(bundle.stats().abilities =~= stats(quality).abilities);
        assert(bundle.stats().auras =~= stats(quality).auras);
    }
    bundle
}

} // verus!
