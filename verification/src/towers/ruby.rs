//! Rubies: their hits splash onto the creeps around the target.

use vstd::prelude::*;
use crate::abilities::on_hit::{OnHit, SplashEffect};
use crate::towers::{
    AttackSpeed, Damage, GemQuality, Range, TowerBundle, TowerStats, BASE_TOWER_SPEED,
};

verus! {

/// The stats of a ruby of each quality.
pub open spec fn stats(quality: GemQuality) -> TowerStats {
    match quality {
        GemQuality::Chipped => TowerStats {
            damage: Damage::Range(8, 9),
            speed: AttackSpeed((BASE_TOWER_SPEED - 200) as u32),
            range: Range(8000),
            abilities: seq![OnHit::Splash(SplashEffect::Multiplier { multiplier: 500 }, Range(3000))],
            auras: Seq::empty(),
        },
        GemQuality::Flawed => TowerStats {
            damage: Damage::Range(13, 16),
            speed: AttackSpeed(BASE_TOWER_SPEED),
            range: Range(8000),
            abilities: seq![OnHit::Splash(SplashEffect::Multiplier { multiplier: 500 }, Range(3000))],
            auras: Seq::empty(),
        },
        GemQuality::Normal => TowerStats {
            damage: Damage::Range(20, 25),
            speed: AttackSpeed(BASE_TOWER_SPEED),
            range: Range(8000),
            abilities: seq![OnHit::Splash(SplashEffect::Multiplier { multiplier: 500 }, Range(3000))],
            auras: Seq::empty(),
        },
        GemQuality::Flawless => TowerStats {
            damage: Damage::Range(38, 45),
            speed: AttackSpeed(BASE_TOWER_SPEED),
            range: Range(8000),
            abilities: seq![OnHit::Splash(SplashEffect::Multiplier { multiplier: 500 }, Range(3000))],
            auras: Seq::empty(),
        },
        GemQuality::Perfect => TowerStats {
            damage: Damage::Range(80, 100),
            speed: AttackSpeed(BASE_TOWER_SPEED),
            range: Range(8000),
            abilities: seq![OnHit::Splash(SplashEffect::Multiplier { multiplier: 500 }, Range(3500))],
            auras: Seq::empty(),
        },
    }
}

/// A new ruby tower of the given quality.
pub fn tower(quality: GemQuality) -> (bundle: TowerBundle)
    ensures
        bundle.stats() == stats(quality),
        bundle.is_new(),
{
    let bundle = match quality {
        GemQuality::Chipped => TowerBundle::new(
            Damage::Range(8, 9),
            AttackSpeed(BASE_TOWER_SPEED - 200),
            Range(8000),
            vec![OnHit::Splash(SplashEffect::Multiplier { multiplier: 500 }, Range(3000))],
            Vec::new(),
        ),
        GemQuality::Flawed => TowerBundle::new(
            Damage::Range(13, 16),
            AttackSpeed(BASE_TOWER_SPEED),
            Range(8000),
            vec![OnHit::Splash(SplashEffect::Multiplier { multiplier: 500 }, Range(3000))],
            Vec::new(),
        ),
        GemQuality::Normal => TowerBundle::new(
            Damage::Range(20, 25),
            AttackSpeed(BASE_TOWER_SPEED),
            Range(8000),
            vec![OnHit::Splash(SplashEffect::Multiplier { multiplier: 500 }, Range(3000))],
            Vec::new(),
        ),
        GemQuality::Flawless => TowerBundle::new(
            Damage::Range(38, 45),
            AttackSpeed(BASE_TOWER_SPEED),
            Range(8000),
            vec![OnHit::Splash(SplashEffect::Multiplier { multiplier: 500 }, Range(3000))],
            Vec::new(),
        ),
        GemQuality::Perfect => TowerBundle::new(
            Damage::Range(80, 100),
            AttackSpeed(BASE_TOWER_SPEED),
            Range(8000),
            vec![OnHit::Splash(SplashEffect::Multiplier { multiplier: 500 }, Range(3500))],
            Vec::new(),
        ),
    };
    proof {
        assert(bundle.stats().abilities =~= stats(quality).abilities);
        assert(bundle.stats().auras =~= stats(quality).auras);
    }
    bundle
}

} // verus!
