//! How a tower finds the creep that it attacks.

use vstd::prelude::*;
use crate::creeps;
use crate::entity::Entity;
use crate::math_utils::{distance_squared_spec, Position};
use crate::towers::{Building, Range, Target, TowerBundle};
use crate::world::{sights, units_in_world, Sight, Unit};

verus! {

/// A tower with the given filter attacks the creep that it sees at place `j`.
pub open spec fn is_candidate(sights: Seq<Option<Sight>>, j: int, filter: Option<creeps::Type>)
    -> bool {
    0 <= j < sights.len() && match sights[j] {
        Some(seen) => filter is None || filter == Some(seen.kind),
        None => false,
    }
}

/// The squared distance from `from` to the creep at place `j`.
pub open spec fn gap(sights: Seq<Option<Sight>>, j: int, from: Position) -> int {
    match sights[j] {
        Some(seen) => distance_squared_spec(from, seen.position),
        None => 0,
    }
}

/// `best` is the place of the creep nearest to `from` among the first `n`
/// that the filter lets through, the first of them where several are as
/// near; it is `None` when there is no such creep.
pub open spec fn is_nearest(
    sights: Seq<Option<Sight>>,
    from: Position,
    filter: Option<creeps::Type>,
    n: int,
    best: Option<int>,
) -> bool {
    match best {
        Some(b) => {
            &&& b < n
            &&& is_candidate(sights, b, filter)
            &&& forall|j: int|
                0 <= j < n && #[trigger] is_candidate(sights, j, filter) ==> {
                    &&& gap(sights, b, from) <= gap(sights, j, from)
                    &&& j < b ==> gap(sights, b, from) < gap(sights, j, from)
                }
        },
        None => forall|j: int| 0 <= j < n ==> !#[trigger] is_candidate(sights, j, filter),
    }
}

/// The place of the creep nearest to `from` among the first `n` that the
/// filter lets through.
pub open spec fn nearest(
    sights: Seq<Option<Sight>>,
    from: Position,
    filter: Option<creeps::Type>,
    n: int,
) -> Option<int> {
    if exists|b: int| is_nearest(sights, from, filter, n, Some(b)) {
        Some(choose|b: int| is_nearest(sights, from, filter, n, Some(b)))
    } else {
        None
    }
}

/// The creep that a tower at `from` with the reach `range` acquires: the
/// nearest that its filter lets through, if that one is nearer than the
/// reach.
pub open spec fn closest_within(
    sights: Seq<Option<Sight>>,
    from: Position,
    range: u32,
    filter: Option<creeps::Type>,
) -> Option<Entity> {
    match nearest(sights, from, filter, sights.len() as int) {
        Some(b) if gap(sights, b, from) < range * range => Some(Entity(b as usize)),
        _ => None,
    }
}

/// The creep nearest to `tower_position` that `filter` lets through, or
/// `None` when that creep is not nearer than `range`.
pub fn get_closest_creep_within_range(
    units: &Vec<Unit>,
    tower_position: Position,
    range: u32,
    filter: Option<creeps::Type>,
) -> (closest: Option<Entity>)
    requires
        units_in_world(units@),
        tower_position.in_world(),
    ensures
        closest == closest_within(sights(units@), tower_position, range, filter),
{
    let ghost seen = sights(units@);
    let mut best: Option<(usize, u128)> = None;
    let mut i: usize = 0;
    while i < units.len()
        invariant
            i <= units.len(),
            seen == sights(units@),
            units_in_world(units@),
            tower_position.in_world(),
            match best {
                Some((b, d)) => d == gap(seen, b as int, tower_position) && is_nearest(
                    seen,
                    tower_position,
                    filter,
                    i as int,
                    Some(b as int),
                ),
                None => is_nearest(seen, tower_position, filter, i as int, None),
            },
        decreases units.len() - i,
    {
        assert(units@[i as int].in_world());
        match &units[i] {
            Unit::Creep(creep) => {
                let passes = match filter {
                    Some(creeps::Type::Ground) => match creep.kind {
                        creeps::Type::Ground => true,
                        creeps::Type::Flying => false,
                    },
                    Some(creeps::Type::Flying) => match creep.kind {
                        creeps::Type::Ground => false,
                        creeps::Type::Flying => true,
                    },
                    None => true,
                };
                assert(passes == is_candidate(seen, i as int, filter));
                if passes {
                    let distance = tower_position.distance_squared(&creep.position);
                    let nearer = match best {
                        Some((_, d)) => distance < d,
                        None => true,
                    };
                    if nearer {
                        best = Some((i, distance));
                    }
                }
            },
            _ => {
                assert(!is_candidate(seen, i as int, filter));
            },
        }
        i += 1;
    }
    proof {
        let found: Option<int> = match best {
            Some((b, _)) => Some(b as int),
            None => None,
        };
        lemma_nearest_is_unique(seen, tower_position, filter, units@.len() as int, found, found);
    }
    assert(range * range <= u64::MAX) by (nonlinear_arith)
        requires
            0 <= range <= u32::MAX,
    ;
    match best {
        Some((b, d)) => {
            if d < (range as u128) * (range as u128) {
                Some(Entity(b))
            } else {
                None
            }
        },
        None => None,
    }
}

/// The creeps among the first `n` units that `filter` lets through and that
/// are within `range` of `at`, in the order of the units.
pub open spec fn creeps_within(
    sights: Seq<Option<Sight>>,
    at: Position,
    range: Range,
    filter: Option<creeps::Type>,
    n: nat,
) -> Seq<Entity>
    decreases n,
{
    if n == 0 {
        Seq::empty()
    } else {
        let before = creeps_within(sights, at, range, filter, (n - 1) as nat);
        match sights[n - 1] {
            Some(seen) if is_candidate(sights, n - 1, filter) && range.within_spec(
                seen.position,
                at,
            ) => before.push(Entity((n - 1) as usize)),
            _ => before,
        }
    }
}

/// Every creep that `filter` lets through and that is within `range` of
/// `position`.
pub fn get_all_creeps_within_range(
    units: &Vec<Unit>,
    position: Position,
    range: Range,
    filter: Option<creeps::Type>,
) -> (found: Vec<Entity>)
    requires
        units_in_world(units@),
        position.in_world(),
    ensures
        found@ == creeps_within(sights(units@), position, range, filter, units@.len()),
{
    let ghost seen = sights(units@);
    let mut found: Vec<Entity> = Vec::new();
    let mut i: usize = 0;
    while i < units.len()
        invariant
            i <= units.len(),
            seen == sights(units@),
            units_in_world(units@),
            position.in_world(),
            found@ == creeps_within(seen, position, range, filter, i as nat),
        decreases units.len() - i,
    {
        assert(units@[i as int].in_world());
        match &units[i] {
            Unit::Creep(creep) => {
                let passes = match filter {
                    Some(creeps::Type::Ground) => match creep.kind {
                        creeps::Type::Ground => true,
                        creeps::Type::Flying => false,
                    },
                    Some(creeps::Type::Flying) => match creep.kind {
                        creeps::Type::Ground => false,
                        creeps::Type::Flying => true,
                    },
                    None => true,
                };
                if passes && range.within(creep.position, position) {
                    found.push(Entity(i));
                }
            },
            _ => {},
        }
        i += 1;
    }
    found
}

/// The creep `target` exists and is within `range` of `at`.
pub open spec fn in_sight(sights: Seq<Option<Sight>>, target: Entity, at: Position, range: Range)
    -> bool {
    target.0 < sights.len() && match sights[target.0 as int] {
        Some(seen) => range.within_spec(seen.position, at),
        None => false,
    }
}

/// The creep that a tower at `at` attacks next: the one it attacks now for
/// as long as that creep exists and is within reach, else the nearest creep
/// that its filter lets through and that is nearer than its reach.
pub open spec fn aimed(
    sights: Seq<Option<Sight>>,
    at: Position,
    range: Range,
    filter: Option<creeps::Type>,
    current: Option<Entity>,
) -> Option<Entity> {
    match current {
        Some(target) if in_sight(sights, target, at, range) => current,
        _ => closest_within(sights, at, range.0, filter),
    }
}

/// Picks the creep that a tower at `at` attacks next.
pub fn aim(
    units: &Vec<Unit>,
    at: Position,
    range: Range,
    filter: Option<creeps::Type>,
    current: Option<Entity>,
) -> (target: Option<Entity>)
    requires
        units_in_world(units@),
        at.in_world(),
    ensures
        target == aimed(sights(units@), at, range, filter, current),
{
    match current {
        Some(target) => {
            if target.0 < units.len() {
                assert(units@[target.0 as int].in_world());
                match &units[target.0] {
                    Unit::Creep(creep) => {
                        if range.within(creep.position, at) {
                            return current;
                        }
                    },
                    _ => {},
                }
            }
        },
        None => {},
    }
    get_closest_creep_within_range(units, at, range.0, filter)
}

impl Building {
    /// The building with the target that it attacks next, if it is a tower
    /// that attacks one creep at a time.
    pub open spec fn retargeted(self, sights: Seq<Option<Sight>>) -> Building {
        match (self.tower, self.gem) {
            (Some(tower), Some(gem)) if !gem.kind.attacks_all_spec() => Building {
                tower: Some(
                    TowerBundle {
                        target: Target(
                            aimed(
                                sights,
                                self.position,
                                tower.range,
                                gem.kind.filter_spec(),
                                tower.target.0,
                            ),
                        ),
                        ..tower
                    },
                ),
                ..self
            },
            _ => self,
        }
    }
}

/// The units once every tower that attacks one creep at a time has the
/// target that it attacks next.
pub open spec fn retargeted_all(units: Seq<Unit>) -> Seq<Unit> {
    Seq::new(
        units.len(),
        |i: int| Unit::on_building(units[i], |b: Building| b.retargeted(sights(units))),
    )
}

/// Gives every tower that attacks one creep at a time the target that it
/// attacks next.
pub fn pick_target(units: &mut Vec<Unit>)
    requires
        units_in_world(old(units)@),
    ensures
        final(units)@ == retargeted_all(old(units)@),
        sights(final(units)@) == sights(old(units)@),
        units_in_world(final(units)@),
{
    let n = units.len();
    let ghost seen = sights(units@);
    let mut i: usize = 0;
    while i < n
        invariant
            i <= n,
            n == units@.len(),
            n == old(units)@.len(),
            seen == sights(old(units)@),
            seen == sights(units@),
            units_in_world(units@),
            forall|j: int|
                0 <= j < i ==> units@[j] == Unit::on_building(
                    old(units)@[j],
                    |b: Building| b.retargeted(seen),
                ),
            forall|j: int| i <= j < n ==> units@[j] == old(units)@[j],
        decreases n - i,
    {
        let ghost before = units@;
        assert(before[i as int].in_world());
        let job = match &units[i] {
            Unit::Building(building) => match (&building.tower, building.gem) {
                (Some(tower), Some(gem)) => {
                    if gem.kind.attacks_all() {
                        None
                    } else {
                        Some((building.position, tower.range, gem.kind.filter(), tower.target.0))
                    }
                },
                _ => None,
            },
            _ => None,
        };
        match job {
            Some((at, range, filter, current)) => {
                let target = aim(units, at, range, filter, current);
                match &mut units[i] {
                    Unit::Building(building) => match &mut building.tower {
                        Some(tower) => {
                            tower.target = Target(target);
                        },
                        None => {},
                    },
                    _ => {},
                }
            },
            None => {},
        }
        proof {
            assert(sights(units@) =~= seen);
            assert forall|j: int| 0 <= j < n implies (#[trigger] units@[j]).in_world() by {
                if j != i {
                    assert(units@[j] == before[j]);
                }
            }
        }
        i += 1;
    }
    assert(units@ =~= retargeted_all(old(units)@));
}

/// There is one nearest creep at most.
pub proof fn lemma_nearest_is_unique(
    sights: Seq<Option<Sight>>,
    from: Position,
    filter: Option<creeps::Type>,
    n: int,
    a: Option<int>,
    b: Option<int>,
)
    requires
        is_nearest(sights, from, filter, n, a),
        is_nearest(sights, from, filter, n, b),
    ensures
        a == b,
        nearest(sights, from, filter, n) == a,
{
    match (a, b) {
        (Some(x), Some(y)) => {
            assert(is_candidate(sights, x, filter));
            assert(is_candidate(sights, y, filter));
        },
        (Some(x), None) => {
            assert(is_candidate(sights, x, filter));
        },
        (None, Some(y)) => {
            assert(is_candidate(sights, y, filter));
        },
        (None, None) => {},
    }
    match nearest(sights, from, filter, n) {
        Some(c) => {
            assert(is_nearest(sights, from, filter, n, Some(c)));
            assert(is_candidate(sights, c, filter));
            match a {
                Some(x) => {
                    assert(is_candidate(sights, x, filter));
                },
                None => {},
            }
        },
        None => {
            match a {
                Some(x) => {
                    assert(is_nearest(sights, from, filter, n, Some(x)));
                },
                None => {},
            }
        },
    }
}

/// Among any number of creeps there is a nearest one, or none that the
/// filter lets through.
pub proof fn lemma_nearest_exists(
    sights: Seq<Option<Sight>>,
    from: Position,
    filter: Option<creeps::Type>,
    n: nat,
)
    requires
        n <= sights.len(),
    ensures
        is_nearest(sights, from, filter, n as int, nearest(sights, from, filter, n as int)),
    decreases n,
{
    if n == 0 {
        assert(is_nearest(sights, from, filter, 0, None));
        lemma_nearest_is_unique(sights, from, filter, 0, None, None);
    } else {
        lemma_nearest_exists(sights, from, filter, (n - 1) as nat);
        let before = nearest(sights, from, filter, n - 1);
        let last = n - 1;
        let next: Option<int> = if !is_candidate(sights, last, filter) {
            before
        } else {
            match before {
                Some(b) => if gap(sights, last, from) < gap(sights, b, from) {
                    Some(last)
                } else {
                    before
                },
                None => Some(last),
            }
        };
        assert(is_nearest(sights, from, filter, n as int, next)) by {
            match before {
                Some(b) => {
                    assert(is_candidate(sights, b, filter));
                },
                None => {},
            }
        }
        lemma_nearest_is_unique(sights, from, filter, n as int, next, next);
    }
}

/// The creep that a tower acquires is one that its filter lets through,
/// nearer than the tower's reach, and no creep that the filter lets through
/// is nearer; and a tower acquires none only when no such creep is nearer
/// than its reach.
pub proof fn lemma_closest_is_nearest(
    sights: Seq<Option<Sight>>,
    from: Position,
    range: u32,
    filter: Option<creeps::Type>,
)
    requires
        sights.len() <= usize::MAX,
    ensures
        match closest_within(sights, from, range, filter) {
            Some(found) => {
                &&& is_candidate(sights, found.0 as int, filter)
                &&& gap(sights, found.0 as int, from) < range * range
                &&& forall|j: int| #[trigger]
                    is_candidate(sights, j, filter) ==> gap(sights, found.0 as int, from) <= gap(
                        sights,
                        j,
                        from,
                    )
            },
            None => forall|j: int| #[trigger]
                is_candidate(sights, j, filter) ==> gap(sights, j, from) >= range * range,
        },
{
    let n = sights.len() as int;
    lemma_nearest_exists(sights, from, filter, sights.len());
    let best = nearest(sights, from, filter, n);
    assert(is_nearest(sights, from, filter, n, best));
    match best {
        Some(b) => {
            assert(is_candidate(sights, b, filter));
            assert forall|j: int| #[trigger] is_candidate(sights, j, filter) implies gap(
                sights,
                b,
                from,
            ) <= gap(sights, j, from) by {}
            assert(Entity(b as usize).0 == b);
        },
        None => {
            assert forall|j: int| #[trigger] is_candidate(sights, j, filter) implies false by {}
        },
    }
}

} // verus!
