//! Placing buildings, revealing their gems and choosing the one to keep.

use vstd::prelude::*;
use crate::entity::Entity;
use crate::grid::{all_free, owner, with_slots, Grid, Slot};
use crate::level_1::all_decided;
use crate::math_utils::{Position, UNIT};
use crate::random::choose_index;
use crate::towers::{
    BuildGem, Building, ChooseGem, Gem, GemQuality, GemType, JustBuilt, Rock, GEM_QUALITIES,
    GEM_TYPES,
};
use crate::world::{units_in_world, Unit};

verus! {

/// Thousandths of a world unit by which a building stands above the ground.
pub const BUILDING_HEIGHT: i64 = 500;

/// The four cells of a building whose least corner is `pos`, or `None`
/// where they do not all exist.
pub open spec fn footprint(pos: (i32, i32)) -> Option<Seq<(i32, i32)>> {
    if pos.0 < i32::MAX && pos.1 < i32::MAX {
        Some(
            seq![
                pos,
                ((pos.0 + 1) as i32, pos.1),
                (pos.0, (pos.1 + 1) as i32),
                ((pos.0 + 1) as i32, (pos.1 + 1) as i32),
            ],
        )
    } else {
        None
    }
}

/// A building can be placed with its least corner on `pos`: its four cells
/// exist and are free.
pub open spec fn can_build(slots: Map<(i32, i32), Slot>, pos: (i32, i32)) -> bool {
    match footprint(pos) {
        Some(cells) => all_free(slots, cells),
        None => false,
    }
}

impl Building {
    /// The building as it is when it has just been placed with its least
    /// corner on `pos`: undecided, no gem, no tower.
    pub open spec fn placed(pos: (i32, i32)) -> Building {
        Building {
            position: Position {
                x: (pos.0 * UNIT) as i64,
                y: BUILDING_HEIGHT,
                z: (pos.1 * UNIT) as i64,
            },
            just_built: Some(JustBuilt),
            gem: None,
            tower: None,
            rock: None,
            buff: None,
            buff_added: false,
            tower_added: false,
        }
    }

    /// A building that has just been placed with its least corner on `pos`.
    pub fn new(pos: (i32, i32)) -> (building: Building)
        ensures
            building == Building::placed(pos),
            building.position.in_world(),
    {
        Building {
            position: Position {
                x: pos.0 as i64 * UNIT,
                y: BUILDING_HEIGHT,
                z: pos.1 as i64 * UNIT,
            },
            just_built: Some(JustBuilt),
            gem: None,
            tower: None,
            rock: None,
            buff: None,
            buff_added: false,
            tower_added: false,
        }
    }
}

/// The grid and the units after the first `k` of the requests `events` were
/// served in order: each request whose four cells exist and are free puts a
/// new building behind the units and its handle on the four cells; any other
/// request changes nothing.
pub open spec fn built(
    slots: Map<(i32, i32), Slot>,
    units: Seq<Unit>,
    events: Seq<BuildGem>,
    k: nat,
) -> (Map<(i32, i32), Slot>, Seq<Unit>)
    decreases k,
{
    if k == 0 {
        (slots, units)
    } else {
        let (slots_before, units_before) = built(slots, units, events, (k - 1) as nat);
        let pos = events[k - 1].pos;
        if can_build(slots_before, pos) {
            (
                with_slots(
                    slots_before,
                    footprint(pos).unwrap(),
                    Slot::Occupied(Entity(units_before.len() as usize)),
                ),
                units_before.push(Unit::Building(Building::placed(pos))),
            )
        } else {
            (slots_before, units_before)
        }
    }
}

/// Serves the requests to build, in order, and returns how many buildings
/// were put up.
pub fn build_gem(events: &Vec<BuildGem>, grid: &mut Grid, units: &mut Vec<Unit>) -> (count: usize)
    requires
        units_in_world(old(units)@),
    ensures
        (final(grid)@, final(units)@) == built(old(grid)@, old(units)@, events@, events@.len()),
        final(units)@.len() == old(units)@.len() + count,
        units_in_world(final(units)@),
{
    let mut count: usize = 0;
    let mut k: usize = 0;
    while k < events.len()
        invariant
            k <= events.len(),
            (grid@, units@) == built(old(grid)@, old(units)@, events@, k as nat),
            units@.len() == old(units)@.len() + count,
            units_in_world(units@),
        decreases events.len() - k,
    {
        let pos = events[k].pos;
        let ghost before = units@;
        if pos.0 < i32::MAX && pos.1 < i32::MAX {
            let cells = [pos, (pos.0 + 1, pos.1), (pos.0, pos.1 + 1), (pos.0 + 1, pos.1 + 1)];
            assert(cells@ =~= footprint(pos).unwrap());
            if grid.buildable(&cells) {
                let entity = Entity(units.len());
                units.push(Unit::Building(Building::new(pos)));
                let _ = grid.add_building(&cells, entity);
                assert(count < units.len());
                count += 1;
                assert forall|j: int| 0 <= j < units@.len() implies (#[trigger] units@[j]).in_world() by {
                    if j < before.len() {
                        assert(units@[j] == before[j]);
                    }
                }
            }
        }
        k += 1;
    }
    count
}

impl Building {
    /// The building is `before` turned into a tower of the gem `gem`: it has
    /// the gem and a new tower with the gem's stats, the auras have not seen
    /// it yet, and all else is as it was.
    pub open spec fn is_revealed_as(self, before: Building, gem: Gem) -> bool {
        &&& self.position == before.position
        &&& self.just_built == before.just_built
        &&& self.rock == before.rock
        &&& self.buff == before.buff
        &&& self.buff_added == before.buff_added
        &&& self.gem == Some(gem)
        &&& self.tower_added
        &&& match self.tower {
            Some(tower) => tower.stats() == gem.stats() && tower.is_new(),
            None => false,
        }
    }

    /// Turns the building into a tower of the gem whose type and quality
    /// stand at the given places of their lists.
    pub fn reveal_as(&mut self, kind_roll: usize, quality_roll: usize)
        ensures
            final(self).is_revealed_as(
                *old(self),
                Gem { quality: GemQuality::at(quality_roll as int), kind: GemType::at(kind_roll as int) },
            ),
    {
        let gem = Gem {
            quality: GemQuality::from_index(quality_roll),
            kind: GemType::from_index(kind_roll),
        };
        self.tower = Some(gem.tower());
        self.gem = Some(gem);
        self.tower_added = true;
    }
}

/// `after` is what the reveal makes of `before`: an undecided building has
/// become a tower of some gem, and any other unit is as it was.
pub open spec fn is_revealed_unit(after: Unit, before: Unit) -> bool {
    match (before, after) {
        (Unit::Building(was), Unit::Building(is)) if was.just_built is Some => exists|gem: Gem|
            is.is_revealed_as(was, gem),
        _ => !(before matches Unit::Building(was) && was.just_built is Some) && after == before,
    }
}

/// Makes a tower of every undecided building, each of a gem whose type and
/// quality are drawn at random.
pub fn reveal_gems(units: &mut Vec<Unit>)
    ensures
        final(units)@.len() == old(units)@.len(),
        forall|i: int|
            0 <= i < old(units)@.len() ==> is_revealed_unit(
                #[trigger] final(units)@[i],
                old(units)@[i],
            ),
        units_in_world(old(units)@) ==> units_in_world(final(units)@),
{
    let n = units.len();
    let mut i: usize = 0;
    while i < n
        invariant
            i <= n,
            n == units@.len(),
            n == old(units)@.len(),
            forall|j: int| 0 <= j < i ==> is_revealed_unit(#[trigger] units@[j], old(units)@[j]),
            forall|j: int| i <= j < n ==> units@[j] == old(units)@[j],
            units_in_world(old(units)@) ==> units_in_world(units@),
        decreases n - i,
    {
        let ghost before = units@;
        match &mut units[i] {
            Unit::Building(building) => {
                if building.just_built.is_some() {
                    let kind_roll = match choose_index(GEM_TYPES) {
                        Some(roll) => roll,
                        None => 0,
                    };
                    let quality_roll = match choose_index(GEM_QUALITIES) {
                        Some(roll) => roll,
                        None => 0,
                    };
                    building.reveal_as(kind_roll, quality_roll);
                }
            },
            _ => {},
        }
        proof {
            assert(is_revealed_unit(units@[i as int], old(units)@[i as int]));
            assert forall|j: int| 0 <= j < i + 1 implies is_revealed_unit(
                #[trigger] units@[j],
                old(units)@[j],
            ) by {
                if j < i {
                    assert(units@[j] == before[j]);
                }
            }
            if units_in_world(old(units)@) {
                assert forall|j: int| 0 <= j < n implies (#[trigger] units@[j]).in_world() by {
                    if j != i {
                        assert(units@[j] == before[j]);
                    } else {
                        assert(before[j].in_world());
                    }
                }
            }
        }
        i += 1;
    }
}

impl Building {
    /// The building once the choice has been made, if it was undecided: the
    /// one that is kept stays a tower, any other becomes a rock without gem
    /// and tower.
    pub open spec fn decided(self, keep: bool) -> Building {
        if self.just_built is None {
            self
        } else if keep {
            Building { just_built: None, ..self }
        } else {
            Building {
                just_built: None,
                gem: None,
                tower: None,
                rock: Some(Rock),
                tower_added: false,
                ..self
            }
        }
    }

    /// Settles what becomes of the building, if it was undecided.
    pub fn decide(&mut self, keep: bool)
        ensures
            *final(self) == old(self).decided(keep),
    {
        if self.just_built.is_some() {
            if !keep {
                self.gem = None;
                self.tower = None;
                self.rock = Some(Rock);
                self.tower_added = false;
            }
            self.just_built = None;
        }
    }
}

/// The unit is a building that is still undecided.
pub open spec fn undecided(unit: Unit) -> bool {
    match unit {
        Unit::Building(building) => building.just_built is Some,
        _ => false,
    }
}

/// The unit `target` is a building that is still undecided.
pub open spec fn is_undecided(units: Seq<Unit>, target: Entity) -> bool {
    target.0 < units.len() && undecided(units[target.0 as int])
}

/// The units once the undecided building `kept` was chosen: it stays a
/// tower, and every other undecided building becomes a rock.
pub open spec fn settled(units: Seq<Unit>, kept: Entity) -> Seq<Unit> {
    Seq::new(
        units.len(),
        |i: int| Unit::on_building(units[i], |b: Building| b.decided(i == kept.0)),
    )
}

/// The units after the first `k` of the choices `events` were served in
/// order. A choice counts when an undecided building stands on its cell;
/// any other changes nothing.
pub open spec fn chosen(
    units: Seq<Unit>,
    slots: Map<(i32, i32), Slot>,
    events: Seq<ChooseGem>,
    k: nat,
) -> Seq<Unit>
    decreases k,
{
    if k == 0 {
        units
    } else {
        let before = chosen(units, slots, events, (k - 1) as nat);
        match owner(slots, events[k - 1].pos) {
            Some(kept) if is_undecided(before, kept) => settled(before, kept),
            _ => before,
        }
    }
}

/// Serves the choices in order: the undecided building on the cell of a
/// choice is kept, and every other undecided building becomes a rock.
pub fn choose_gem(events: &Vec<ChooseGem>, grid: &Grid, units: &mut Vec<Unit>)
    ensures
        final(units)@ == chosen(old(units)@, grid@, events@, events@.len()),
        units_in_world(old(units)@) ==> units_in_world(final(units)@),
{
    let n = units.len();
    let mut k: usize = 0;
    while k < events.len()
        invariant
            k <= events.len(),
            n == units@.len(),
            units@ == chosen(old(units)@, grid@, events@, k as nat),
            units_in_world(old(units)@) ==> units_in_world(units@),
        decreases events.len() - k,
    {
        let ghost before = units@;
        match grid.get(events[k].pos) {
            Some(kept) => {
                let undecided = kept.0 < n && match &units[kept.0] {
                    Unit::Building(building) => building.just_built.is_some(),
                    _ => false,
                };
                if undecided {
                    let mut i: usize = 0;
                    while i < n
                        invariant
                            i <= n,
                            n == units@.len(),
                            n == before.len(),
                            forall|j: int| 0 <= j < i ==> units@[j] == settled(before, kept)[j],
                            forall|j: int| i <= j < n ==> units@[j] == before[j],
                        decreases n - i,
                    {
                        match &mut units[i] {
                            Unit::Building(building) => {
                                building.decide(i == kept.0);
                            },
                            _ => {},
                        }
                        i += 1;
                    }
                    assert(units@ =~= settled(before, kept));
                }
            },
            None => {},
        }
        proof {
            if units_in_world(old(units)@) {
                assert forall|j: int| 0 <= j < n implies (#[trigger] units@[j]).in_world() by {
                    assert(before[j].in_world());
                }
            }
        }
        k += 1;
    }
}

/// Once a building was chosen, it is the only tower among those that were
/// undecided, every other one of them is a rock without gem and tower, and
/// no building is undecided any more.
pub proof fn lemma_choice_leaves_one_tower(units: Seq<Unit>, kept: Entity)
    requires
        is_undecided(units, kept),
    ensures
        all_decided(settled(units, kept)),
        forall|i: int|
            0 <= i < units.len() && undecided(units[i]) && i != kept.0 ==> match (
            #[trigger] settled(units, kept)[i]) {
                Unit::Building(building) => building.gem is None && building.tower is None
                    && building.rock is Some,
                _ => false,
            },
        match (units[kept.0 as int], settled(units, kept)[kept.0 as int]) {
            (Unit::Building(before), Unit::Building(after)) => after.gem == before.gem
                && after.tower == before.tower && after.rock == before.rock,
            _ => false,
        },
{
    assert forall|i: int| 0 <= i < units.len() implies !((#[trigger] settled(units, kept)[i])
        matches Unit::Building(building) && building.just_built is Some) by {}
}

} // verus!
