//! Towers: the gems they are made of and their stats.

use vstd::prelude::*;
use crate::abilities::aura::{Aura, Auras};
use crate::abilities::on_hit::OnHit;
use crate::abilities::OnHitAbilities;
use crate::buffs;
use crate::creeps;
use crate::entity::Entity;
use crate::math_utils::{abs_diff, magnitude, planar_distance_squared_spec, Position};
use crate::random::roll_between;
use crate::timer::Timer;

pub mod amethyst;
pub mod aquamarine;
pub mod attacking;
pub mod construction;
pub mod diamond;
pub mod emerald;
pub mod opal;
pub mod projectiles;
pub mod ruby;
pub mod sapphire;
pub mod targeting;
pub mod topaz;

verus! {

/// Most towers attack once per second: their attack speed is this many
/// thousandths of a second between two attacks.
pub const BASE_TOWER_SPEED: u32 = 1000;

/// Milliseconds of a tower's first cooldown.
pub const FIRST_COOLDOWN: u32 = 1000;

/// The five grades of a gem, from the weakest.
#[derive(Clone, Copy, PartialEq, Eq, Structural, Debug)]
pub enum GemQuality {
    Chipped,
    Flawed,
    Normal,
    Flawless,
    Perfect,
}

/// The eight kinds of gem.
#[derive(Clone, Copy, PartialEq, Eq, Structural, Debug)]
pub enum GemType {
    Diamond,
    Aquamarine,
    Ruby,
    Emerald,
    Sapphire,
    Topaz,
    Opal,
    Amethyst,
}

/// How many gem qualities there are.
pub const GEM_QUALITIES: usize = 5;

/// How many gem types there are.
pub const GEM_TYPES: usize = 8;

impl GemQuality {
    /// The quality at place `index` of the list from the weakest; past the
    /// end of the list, the best.
    pub open spec fn at(index: int) -> GemQuality {
        if index == 0 {
            GemQuality::Chipped
        } else if index == 1 {
            GemQuality::Flawed
        } else if index == 2 {
            GemQuality::Normal
        } else if index == 3 {
            GemQuality::Flawless
        } else {
            GemQuality::Perfect
        }
    }

    /// The quality at place `index` of the list from the weakest.
    pub fn from_index(index: usize) -> (quality: GemQuality)
        ensures
            quality == GemQuality::at(index as int),
    {
        match index {
            0 => GemQuality::Chipped,
            1 => GemQuality::Flawed,
            2 => GemQuality::Normal,
            3 => GemQuality::Flawless,
            _ => GemQuality::Perfect,
        }
    }
}

impl GemType {
    /// The type at place `index` of the list above; past the end of the list,
    /// the last.
    pub open spec fn at(index: int) -> GemType {
        if index == 0 {
            GemType::Diamond
        } else if index == 1 {
            GemType::Aquamarine
        } else if index == 2 {
            GemType::Ruby
        } else if index == 3 {
            GemType::Emerald
        } else if index == 4 {
            GemType::Sapphire
        } else if index == 5 {
            GemType::Topaz
        } else if index == 6 {
            GemType::Opal
        } else {
            GemType::Amethyst
        }
    }

    /// The type at place `index` of the list above.
    pub fn from_index(index: usize) -> (kind: GemType)
        ensures
            kind == GemType::at(index as int),
    {
        match index {
            0 => GemType::Diamond,
            1 => GemType::Aquamarine,
            2 => GemType::Ruby,
            3 => GemType::Emerald,
            4 => GemType::Sapphire,
            5 => GemType::Topaz,
            6 => GemType::Opal,
            _ => GemType::Amethyst,
        }
    }

    /// The creeps that a tower of this type attacks: amethysts only the
    /// flying ones, every other type all of them.
    pub open spec fn filter_spec(self) -> Option<creeps::Type> {
        if self == GemType::Amethyst {
            Some(creeps::Type::Flying)
        } else {
            None
        }
    }

    /// The creeps that a tower of this type attacks, `None` for all.
    pub fn filter(&self) -> (filter: Option<creeps::Type>)
        ensures
            filter == self.filter_spec(),
    {
        match self {
            GemType::Amethyst => Some(creeps::Type::Flying),
            _ => None,
        }
    }

    /// Topaz towers attack every creep in range at once.
    pub open spec fn attacks_all_spec(self) -> bool {
        self == GemType::Topaz
    }

    /// Whether a tower of this type attacks every creep in range at once.
    pub fn attacks_all(&self) -> (all: bool)
        ensures
            all == self.attacks_all_spec(),
    {
        match self {
            GemType::Topaz => true,
            _ => false,
        }
    }
}

/// A gem: what a tower is once it has been revealed.
#[derive(Clone, Copy, PartialEq, Eq, Structural, Debug)]
pub struct Gem {
    pub quality: GemQuality,
    pub kind: GemType,
}

/// Marks a building that was placed in this round and is not decided yet.
#[derive(Clone, Copy, PartialEq, Eq, Structural, Debug)]
pub struct JustBuilt;

/// Marks a building that was not chosen and only stands in the way.
#[derive(Clone, Copy, PartialEq, Eq, Structural, Debug)]
pub struct Rock;

/// A request to build on the four cells whose least corner is `pos`.
#[derive(Clone, Copy, Debug)]
pub struct BuildGem {
    pub pos: (i32, i32),
}

/// A request to keep the gem that stands on the cell `pos`.
#[derive(Clone, Copy, Debug)]
pub struct ChooseGem {
    pub pos: (i32, i32),
}

/// A shot on its way from the tower `origin` to the creep `target`.
#[derive(Clone, Copy, PartialEq, Eq, Structural, Debug)]
pub struct Projectile {
    pub origin: Entity,
    pub target: Entity,
}

/// A shot has reached its target.
#[derive(Clone, Copy, PartialEq, Eq, Structural, Debug)]
pub struct ProjectileHit(pub Projectile);

/// The damage of one attack: any value from the first to the second number,
/// both included, or always the same.
#[derive(Clone, Copy, PartialEq, Eq, Structural, Debug)]
pub enum Damage {
    Range(u64, u64),
    Fixed(u64),
}

/// Thousandths of a second between two attacks.
#[derive(Clone, Copy, PartialEq, Eq, Structural, Debug)]
pub struct AttackSpeed(pub u32);

/// A reach, in thousandths of a world unit.
#[derive(Clone, Copy, PartialEq, Eq, Structural, Debug)]
pub struct Range(pub u32);

/// The time until a tower attacks again.
#[derive(Clone, Copy, PartialEq, Eq, Structural, Debug)]
pub struct Cooldown(pub Timer);

/// The creep that a tower is attacking.
#[derive(Clone, Copy, PartialEq, Eq, Structural, Debug)]
pub struct Target(pub Option<Entity>);

/// A shot in flight.
#[derive(Clone, Copy, PartialEq, Eq, Structural, Debug)]
pub struct Shot {
    pub position: Position,
    pub projectile: Projectile,
}

/// Everything that makes a building a tower.
pub struct TowerBundle {
    pub damage: Damage,
    pub speed: AttackSpeed,
    pub range: Range,
    pub cooldown: Cooldown,
    pub abilities: OnHitAbilities,
    pub auras: Auras,
    pub target: Target,
}

/// A building on the grid: undecided, a tower, or a rock.
pub struct Building {
    pub position: Position,
    pub just_built: Option<JustBuilt>,
    pub gem: Option<Gem>,
    pub tower: Option<TowerBundle>,
    pub rock: Option<Rock>,
    pub buff: Option<buffs::AttackSpeed>,
    /// The buff was given and is not on the attack speed yet.
    pub buff_added: bool,
    /// The building became a tower and the auras have not seen it yet.
    pub tower_added: bool,
}

/// The stats of a tower as plain values.
pub struct TowerStats {
    pub damage: Damage,
    pub speed: AttackSpeed,
    pub range: Range,
    pub abilities: Seq<OnHit>,
    pub auras: Seq<Aura>,
}

impl TowerBundle {
    /// The stats that the bundle holds.
    pub open spec fn stats(self) -> TowerStats {
        TowerStats {
            damage: self.damage,
            speed: self.speed,
            range: self.range,
            abilities: self.abilities.0@,
            auras: self.auras.0@,
        }
    }

    /// The tower has not attacked or aimed yet.
    pub open spec fn is_new(self) -> bool {
        &&& self.cooldown == Cooldown(
            Timer {
                elapsed: 0,
                duration: FIRST_COOLDOWN,
                repeating: true,
                finished: false,
                times_finished: 0,
            },
        )
        &&& self.target == Target(None)
    }

    /// A tower with the given stats that has not attacked or aimed yet.
    pub fn new(
        damage: Damage,
        speed: AttackSpeed,
        range: Range,
        abilities: Vec<OnHit>,
        auras: Vec<Aura>,
    ) -> (bundle: TowerBundle)
        ensures
            bundle.stats() == (TowerStats {
                damage,
                speed,
                range,
                abilities: abilities@,
                auras: auras@,
            }),
            bundle.is_new(),
    {
        TowerBundle {
            damage,
            speed,
            range,
            cooldown: Cooldown(Timer::new(FIRST_COOLDOWN, true)),
            abilities: OnHitAbilities(abilities),
            auras: Auras(auras),
            target: Target(None),
        }
    }
}

impl Gem {
    /// The stats of a tower made of this gem.
    pub open spec fn stats(self) -> TowerStats {
        match self.kind {
            GemType::Diamond => diamond::stats(self.quality),
            GemType::Aquamarine => aquamarine::stats(self.quality),
            GemType::Ruby => ruby::stats(self.quality),
            GemType::Emerald => emerald::stats(self.quality),
            GemType::Sapphire => sapphire::stats(self.quality),
            GemType::Topaz => topaz::stats(self.quality),
            GemType::Opal => opal::stats(self.quality),
            GemType::Amethyst => amethyst::stats(self.quality),
        }
    }

    /// A new tower made of this gem.
    pub fn tower(&self) -> (bundle: TowerBundle)
        ensures
            bundle.stats() == self.stats(),
            bundle.is_new(),
    {
        match self.kind {
            GemType::Diamond => diamond::tower(self.quality),
            GemType::Aquamarine => aquamarine::tower(self.quality),
            GemType::Ruby => ruby::tower(self.quality),
            GemType::Emerald => emerald::tower(self.quality),
            GemType::Sapphire => sapphire::tower(self.quality),
            GemType::Topaz => topaz::tower(self.quality),
            GemType::Opal => opal::tower(self.quality),
            GemType::Amethyst => amethyst::tower(self.quality),
        }
    }
}

impl Damage {
    /// The damage of an attack whose roll was `roll`: the fixed damage, or
    /// the roll if it lies in the range, or the least damage of the range.
    pub open spec fn rolled(self, roll: u64) -> u64 {
        match self {
            Damage::Fixed(value) => value,
            Damage::Range(low, high) => if low <= roll <= high {
                roll
            } else {
                low
            },
        }
    }

    /// The damage of an attack whose roll was `roll`.
    pub fn roll_as(&self, roll: u64) -> (damage: u64)
        ensures
            damage == self.rolled(roll),
    {
        match self {
            Damage::Fixed(value) => *value,
            Damage::Range(low, high) => if *low <= roll && roll <= *high {
                roll
            } else {
                *low
            },
        }
    }

    /// Rolls the damage of one attack: the fixed damage, or any damage of the
    /// range, each as likely as the other.
    pub fn roll(&self) -> (damage: u64)
        ensures
            exists|roll: u64| damage == #[trigger] self.rolled(roll),
            match *self {
                Damage::Fixed(value) => damage == value,
                Damage::Range(low, high) => low <= high ==> low <= damage <= high,
            },
    {
        let roll = match self {
            Damage::Fixed(value) => *value,
            Damage::Range(low, high) => if *low <= *high {
                roll_between(*low, *high)
            } else {
                *low
            },
        };
        let damage = self.roll_as(roll);
        assert(damage == self.rolled(roll));
        damage
    }
}

impl Cooldown {
    /// The cooldown of a tower with the attack speed `speed` after `dt`
    /// milliseconds: a base attack takes a second, so the cooldown lasts
    /// `speed` milliseconds.
    pub open spec fn cooled(self, speed: AttackSpeed, dt: u32) -> Cooldown {
        Cooldown((Timer { duration: speed.0, ..self.0 }).ticked(dt))
    }

    /// The tower may attack now.
    pub open spec fn is_done(self) -> bool {
        self.0.just_finished_spec()
    }

    /// The cooldown started over.
    pub open spec fn restarted(self) -> Cooldown {
        Cooldown(Timer { elapsed: 0, finished: false, times_finished: 0, ..self.0 })
    }
}

/// Lets `dt` milliseconds of the cooldown of a tower with the attack speed
/// `speed` pass, and says whether the tower may attack now.
pub fn cooldown_is_done(cooldown: &mut Cooldown, speed: AttackSpeed, dt: u32) -> (done: bool)
    ensures
        *final(cooldown) == old(cooldown).cooled(speed, dt),
        done == final(cooldown).is_done(),
{
    cooldown.0.set_duration(speed.0);
    cooldown.0.tick(dt);
    cooldown.0.just_finished()
}

impl Range {
    /// `a` is within reach of `b` on the ground: no further than half the
    /// reach along either axis, and no further than the reach in a straight
    /// line.
    pub open spec fn within_spec(self, a: Position, b: Position) -> bool {
        &&& 2 * magnitude(a.x - b.x) <= self.0
        &&& 2 * magnitude(a.z - b.z) <= self.0
        &&& planar_distance_squared_spec(a, b) <= self.0 * self.0
    }

    /// Whether `a` is within reach of `b` on the ground.
    pub fn within(&self, a: Position, b: Position) -> (inside: bool)
        requires
            a.in_world(),
            b.in_world(),
        ensures
            inside == self.within_spec(a, b),
    {
        let dx = abs_diff(a.x, b.x);
        let dz = abs_diff(a.z, b.z);
        if 2 * dx > self.0 as u64 || 2 * dz > self.0 as u64 {
            return false;
        }
        assert(self.0 * self.0 <= u64::MAX) by (nonlinear_arith)
            requires
                0 <= self.0 <= u32::MAX,
        ;
        a.planar_distance_squared(&b) <= (self.0 as u128) * (self.0 as u128)
    }
}

/// The straight-line test of the reach never rejects what the half-reach box
/// has let through: being within reach is being inside the box.
pub proof fn lemma_within_is_the_half_box(range: Range, a: Position, b: Position)
    ensures
        range.within_spec(a, b) <==> (2 * magnitude(a.x - b.x) <= range.0 && 2 * magnitude(a.z - b.z)
            <= range.0),
{
    let dx = magnitude(a.x - b.x);
    let dz = magnitude(a.z - b.z);
    let r = range.0 as int;
    crate::math_utils::lemma_square_of_magnitude(a.x - b.x);
    crate::math_utils::lemma_square_of_magnitude(a.z - b.z);
    if 2 * dx <= r && 2 * dz <= r {
        assert(4 * (dx * dx) <= r * r) by (nonlinear_arith)
            requires
                0 <= 2 * dx <= r,
        ;
        assert(4 * (dz * dz) <= r * r) by (nonlinear_arith)
            requires
                0 <= 2 * dz <= r,
        ;
        assert(0 <= r * r) by (nonlinear_arith);
    }
}

/// A point further than half the reach along an axis is out of reach, however
/// near it is in a straight line.
pub proof fn lemma_outside_half_box_is_rejected(range: Range, a: Position, b: Position)
    requires
        2 * magnitude(a.x - b.x) > range.0 || 2 * magnitude(a.z - b.z) > range.0,
    ensures
        !range.within_spec(a, b),
{
}

/// A point half the reach away along the x axis is within reach.
pub proof fn lemma_half_reach_on_axis_is_accepted(range: Range, a: Position, b: Position)
    requires
        2 * magnitude(a.x - b.x) <= range.0,
        a.z == b.z,
    ensures
        range.within_spec(a, b),
{
    lemma_within_is_the_half_box(range, a, b);
}

} // verus!
