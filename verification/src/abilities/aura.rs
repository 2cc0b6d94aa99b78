//! Auras: buffs that a tower gives to the towers around it.

use vstd::prelude::*;
use crate::math_utils::Position;
use crate::towers::{Building, Range};
use crate::world::{units_in_world, Unit};

verus! {

/// The auras of a tower.
pub struct Auras(pub Vec<Aura>);

/// A buff for every tower within `range`.
#[derive(Clone, Copy, PartialEq, Eq, Structural, Debug)]
pub struct Aura {
    pub range: Range,
    pub kind: Kind,
}

/// What an aura gives.
#[derive(Clone, Copy, PartialEq, Eq, Structural, Debug)]
pub enum Kind {
    /// Thousandths added to the attack speed.
    AttackSpeed(u32),
}

/// The larger of two offers.
pub open spec fn better(a: Option<u32>, b: Option<u32>) -> Option<u32> {
    match (a, b) {
        (Some(x), Some(y)) => if x >= y {
            a
        } else {
            b
        },
        (Some(_), None) => a,
        _ => b,
    }
}

/// The most attack speed that the first `k` of `auras`, which stand at
/// `source`, offer to a tower at `at`: an aura offers to the towers within
/// its range.
pub open spec fn best_of(auras: Seq<Aura>, source: Position, at: Position, k: nat) -> Option<u32>
    decreases k,
{
    if k == 0 {
        None
    } else {
        let before = best_of(auras, source, at, (k - 1) as nat);
        match auras[k - 1].kind {
            Kind::AttackSpeed(value) => if auras[k - 1].range.within_spec(at, source) {
                better(before, Some(value))
            } else {
                before
            },
        }
    }
}

/// The unit offers its auras: it is a tower, and a new one where only new
/// towers are asked.
pub open spec fn offers(unit: Unit, only_new: bool) -> bool {
    match unit {
        Unit::Building(building) => building.tower is Some && (!only_new || building.tower_added),
        _ => false,
    }
}

/// The most attack speed that the auras of the first `n` units offer to a
/// tower at `at`, from new towers only where `only_new` says so.
pub open spec fn best_gift(units: Seq<Unit>, at: Position, only_new: bool, n: nat) -> Option<u32>
    decreases n,
{
    if n == 0 {
        None
    } else {
        let before = best_gift(units, at, only_new, (n - 1) as nat);
        match units[n - 1] {
            Unit::Building(building) if offers(units[n - 1], only_new) => better(
                before,
                best_of(
                    building.tower.unwrap().auras.0@,
                    building.position,
                    at,
                    building.tower.unwrap().auras.0@.len(),
                ),
            ),
            _ => before,
        }
    }
}

/// What the auras offer to the unit at place `i`: to a tower, the most that
/// they offer at its place; where only new towers receive, to a new tower
/// only.
pub open spec fn gift_for(units: Seq<Unit>, i: int, new_sources: bool, new_towers: bool) -> Option<
    u32,
> {
    match units[i] {
        Unit::Building(building) if offers(units[i], new_towers) => best_gift(
            units,
            building.position,
            new_sources,
            units.len(),
        ),
        _ => None,
    }
}

/// The unit after the auras have offered it `gift`.
pub open spec fn gifted(unit: Unit, gift: Option<u32>) -> Unit {
    match (unit, gift) {
        (Unit::Building(building), Some(value)) => Unit::Building(building.given(value)),
        _ => unit,
    }
}

/// The units after the auras have made their offers: those of new towers
/// only where `new_sources` says so, to new towers only where `new_towers`
/// says so.
pub open spec fn gifts_given(units: Seq<Unit>, new_sources: bool, new_towers: bool) -> Seq<Unit> {
    Seq::new(
        units.len(),
        |i: int| gifted(units[i], gift_for(units, i, new_sources, new_towers)),
    )
}

/// The units once the auras no longer take any tower for new.
pub open spec fn all_seen(units: Seq<Unit>) -> Seq<Unit> {
    Seq::new(
        units.len(),
        |i: int| Unit::on_building(units[i], |b: Building| Building { tower_added: false, ..b }),
    )
}

fn offer_of(auras: &Vec<Aura>, source: Position, at: Position) -> (gift: Option<u32>)
    requires
        source.in_world(),
        at.in_world(),
    ensures
        gift == best_of(auras@, source, at, auras@.len()),
{
    let mut gift: Option<u32> = None;
    let mut k: usize = 0;
    while k < auras.len()
        invariant
            k <= auras.len(),
            source.in_world(),
            at.in_world(),
            gift == best_of(auras@, source, at, k as nat),
        decreases auras.len() - k,
    {
        match auras[k].kind {
            Kind::AttackSpeed(value) => {
                if auras[k].range.within(at, source) {
                    gift = match gift {
                        Some(best) => if best >= value {
                            gift
                        } else {
                            Some(value)
                        },
                        None => Some(value),
                    };
                }
            },
        }
        k += 1;
    }
    gift
}

fn collect_gifts(units: &Vec<Unit>, new_sources: bool, new_towers: bool) -> (gifts: Vec<
    Option<u32>,
>)
    requires
        units_in_world(units@),
    ensures
        gifts@.len() == units@.len(),
        forall|i: int|
            0 <= i < units@.len() ==> gifts@[i] == gift_for(units@, i, new_sources, new_towers),
{
    let n = units.len();
    let mut gifts: Vec<Option<u32>> = Vec::new();
    let mut i: usize = 0;
    while i < n
        invariant
            i <= n,
            n == units@.len(),
            units_in_world(units@),
            gifts@.len() == i,
            forall|j: int| 0 <= j < i ==> gifts@[j] == gift_for(units@, j, new_sources, new_towers),
        decreases n - i,
    {
        assert(units@[i as int].in_world());
        let receiver = match &units[i] {
            Unit::Building(building) => if building.tower.is_some() && (!new_towers
                || building.tower_added) {
                Some(building.position)
            } else {
                None
            },
            _ => None,
        };
        let mut gift: Option<u32> = None;
        match receiver {
            Some(at) => {
                let mut s: usize = 0;
                while s < n
                    invariant
                        s <= n,
                        n == units@.len(),
                        units_in_world(units@),
                        at.in_world(),
                        gift == best_gift(units@, at, new_sources, s as nat),
                    decreases n - s,
                {
                    assert(units@[s as int].in_world());
                    match &units[s] {
                        Unit::Building(source) => match &source.tower {
                            Some(tower) => {
                                if !new_sources || source.tower_added {
                                    let offer = offer_of(&tower.auras.0, source.position, at);
                                    gift = match (gift, offer) {
                                        (Some(x), Some(y)) => if x >= y {
                                            gift
                                        } else {
                                            offer
                                        },
                                        (Some(_), None) => gift,
                                        _ => offer,
                                    };
                                }
                            },
                            None => {},
                        },
                        _ => {},
                    }
                    s += 1;
                }
            },
            None => {},
        }
        gifts.push(gift);
        i += 1;
    }
    gifts
}

fn give_all(units: &mut Vec<Unit>, gifts: &Vec<Option<u32>>)
    requires
        gifts@.len() == old(units)@.len(),
    ensures
        final(units)@ == Seq::new(
            old(units)@.len(),
            |i: int| gifted(old(units)@[i], gifts@[i]),
        ),
{
    let n = units.len();
    let mut i: usize = 0;
    while i < n
        invariant
            i <= n,
            n == units@.len(),
            n == old(units)@.len(),
            n == gifts@.len(),
            forall|j: int| 0 <= j < i ==> units@[j] == gifted(old(units)@[j], gifts@[j]),
            forall|j: int| i <= j < n ==> units@[j] == old(units)@[j],
        decreases n - i,
    {
        match gifts[i] {
            Some(value) => match &mut units[i] {
                Unit::Building(building) => {
                    building.give(value);
                },
                _ => {},
            },
            None => {},
        }
        i += 1;
    }
    assert(units@ =~= Seq::new(old(units)@.len(), |i: int| gifted(old(units)@[i], gifts@[i])));
}

impl Auras {
    /// Lets the auras of every new tower reach the towers around it: each
    /// tower keeps the larger of its buff and the most that these auras
    /// offer at its place.
    pub fn apply_new_aura(units: &mut Vec<Unit>)
        requires
            units_in_world(old(units)@),
        ensures
            final(units)@ == gifts_given(old(units)@, true, false),
            units_in_world(final(units)@),
    {
        let gifts = collect_gifts(units, true, false);
        give_all(units, &gifts);
        proof {
            assert(units@ =~= gifts_given(old(units)@, true, false));
            assert forall|j: int| 0 <= j < units@.len() implies (#[trigger] units@[j]).in_world() by {
                assert(old(units)@[j].in_world());
            }
        }
    }

    /// Lets the auras of every tower reach the new towers around it: each
    /// new tower keeps the larger of its buff and the most that the auras
    /// offer at its place.
    pub fn apply_aura_to_new_tower(units: &mut Vec<Unit>)
        requires
            units_in_world(old(units)@),
        ensures
            final(units)@ == gifts_given(old(units)@, false, true),
            units_in_world(final(units)@),
    {
        let gifts = collect_gifts(units, false, true);
        give_all(units, &gifts);
        proof {
            assert(units@ =~= gifts_given(old(units)@, false, true));
            assert forall|j: int| 0 <= j < units@.len() implies (#[trigger] units@[j]).in_world() by {
                assert(old(units)@[j].in_world());
            }
        }
    }

    /// Tells the auras that they have seen every tower there is.
    pub fn settle(units: &mut Vec<Unit>)
        ensures
            final(units)@ == all_seen(old(units)@),
    {
        let n = units.len();
        let mut i: usize = 0;
        while i < n
            invariant
                i <= n,
                n == units@.len(),
                n == old(units)@.len(),
                forall|j: int| 0 <= j < i ==> units@[j] == all_seen(old(units)@)[j],
                forall|j: int| i <= j < n ==> units@[j] == old(units)@[j],
            decreases n - i,
        {
            match &mut units[i] {
                Unit::Building(building) => {
                    building.tower_added = false;
                },
                _ => {},
            }
            i += 1;
        }
        assert(units@ =~= all_seen(old(units)@));
    }
}

} // verus!
