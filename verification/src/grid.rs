//! The building grid: which cells are taken, and by what.

use vstd::prelude::*;
use crate::entity::Entity;
use crate::math_utils::{Position, UNIT};
use std::collections::HashMap;
use vstd::std_specs::iter::IteratorSpec;

verus! {

/// What stands on a cell that is not free.
#[derive(Clone, Copy, PartialEq, Eq, Structural, Debug)]
pub enum Slot {
    /// A building, with its handle.
    Occupied(Entity),
    /// Part of the map on which nothing can be built.
    Blocked,
}

/// The cells that are not free. A cell that the grid does not hold is free.
pub struct Grid {
    slots: HashMap<u64, Slot>,
}

/// The number under which the grid files a cell: both coordinates, shifted to
/// be positive, side by side.
pub closed spec fn key_of(cell: (i32, i32)) -> u64 {
    ((cell.0 + 0x8000_0000) * 0x1_0000_0000 + (cell.1 + 0x8000_0000)) as u64
}

/// `cell` is one of `cells`.
pub open spec fn among(cells: Seq<(i32, i32)>, cell: (i32, i32)) -> bool {
    exists|i: int| 0 <= i < cells.len() && cells[i] == cell
}

/// None of `cells` is taken in `slots`.
pub open spec fn all_free(slots: Map<(i32, i32), Slot>, cells: Seq<(i32, i32)>) -> bool {
    forall|i: int| 0 <= i < cells.len() ==> !slots.contains_key(#[trigger] cells[i])
}

/// `slots` with `slot` put on each of `cells`.
pub open spec fn with_slots(
    slots: Map<(i32, i32), Slot>,
    cells: Seq<(i32, i32)>,
    slot: Slot,
) -> Map<(i32, i32), Slot> {
    Map::new(
        |c: (i32, i32)| slots.contains_key(c) || among(cells, c),
        |c: (i32, i32)|
            if among(cells, c) {
                slot
            } else {
                slots[c]
            },
    )
}

/// The building that stands on `pos`, if one does.
pub open spec fn owner(slots: Map<(i32, i32), Slot>, pos: (i32, i32)) -> Option<Entity> {
    if slots.contains_key(pos) {
        match slots[pos] {
            Slot::Occupied(entity) => Some(entity),
            Slot::Blocked => None,
        }
    } else {
        None
    }
}

/// `v / UNIT` rounded to the nearest whole number, halves away from zero.
pub open spec fn rounded_units(v: int) -> int {
    if v >= 0 {
        (v + UNIT / 2) / (UNIT as int)
    } else {
        -((-v + UNIT / 2) / (UNIT as int))
    }
}

/// `v` brought into the range of `i32`.
pub open spec fn clamped_i32(v: int) -> i32 {
    if v > i32::MAX {
        i32::MAX
    } else if v < i32::MIN {
        i32::MIN
    } else {
        v as i32
    }
}

/// The cells next to `cell`: east, west, south and north of it, in this
/// order, without those whose coordinates do not exist.
pub open spec fn neighbours_spec(cell: (i32, i32)) -> Seq<(i32, i32)> {
    let east = if cell.0 < i32::MAX {
        seq![((cell.0 + 1) as i32, cell.1)]
    } else {
        Seq::empty()
    };
    let west = if cell.0 > i32::MIN {
        seq![((cell.0 - 1) as i32, cell.1)]
    } else {
        Seq::empty()
    };
    let south = if cell.1 < i32::MAX {
        seq![(cell.0, (cell.1 + 1) as i32)]
    } else {
        Seq::empty()
    };
    let north = if cell.1 > i32::MIN {
        seq![(cell.0, (cell.1 - 1) as i32)]
    } else {
        Seq::empty()
    };
    east + west + south + north
}

/// Two cells are filed under the same number only if they are the same cell.
proof fn lemma_key_is_injective(a: (i32, i32), b: (i32, i32))
    ensures
        key_of(a) == key_of(b) <==> a == b,
{
}

fn key(cell: (i32, i32)) -> (k: u64)
    ensures
        k == key_of(cell),
{
    let column: u64 = (cell.0 as i64 + 0x8000_0000) as u64;
    let row: u64 = (cell.1 as i64 + 0x8000_0000) as u64;
    column * 0x1_0000_0000 + row
}

/// The cell that is filed under the number `k`.
pub closed spec fn cell_of(k: u64) -> (i32, i32) {
    ((k / 0x1_0000_0000 - 0x8000_0000) as i32, (k % 0x1_0000_0000 - 0x8000_0000) as i32)
}

/// Every number files exactly one cell.
proof fn lemma_cell_of_key(k: u64)
    ensures
        key_of(cell_of(k)) == k,
{
}

fn cell(k: u64) -> (c: (i32, i32))
    ensures
        c == cell_of(k),
{
    let column: i64 = (k / 0x1_0000_0000) as i64 - 0x8000_0000;
    let row: i64 = (k % 0x1_0000_0000) as i64 - 0x8000_0000;
    (column as i32, row as i32)
}

fn round_to_cell(v: i64) -> (cell: i32)
    ensures
        cell == clamped_i32(rounded_units(v as int)),
{
    let half: i128 = (UNIT / 2) as i128;
    let whole: i128 = if v >= 0 {
        (v as i128 + half) / (UNIT as i128)
    } else {
        -((-(v as i128) + half) / (UNIT as i128))
    };
    if whole > i32::MAX as i128 {
        i32::MAX
    } else if whole < i32::MIN as i128 {
        i32::MIN
    } else {
        whole as i32
    }
}

impl View for Grid {
    type V = Map<(i32, i32), Slot>;

    closed spec fn view(&self) -> Map<(i32, i32), Slot> {
        Map::new(
            |c: (i32, i32)| self.slots@.contains_key(key_of(c)),
            |c: (i32, i32)| self.slots@[key_of(c)],
        )
    }
}

impl Grid {
    /// A grid on which every cell is free.
    pub fn new() -> (grid: Grid)
        ensures
            grid@ == Map::<(i32, i32), Slot>::empty(),
    {
        let grid = Grid { slots: HashMap::new() };
        assert(grid@ =~= Map::<(i32, i32), Slot>::empty());
        grid
    }

    /// Whether `cell` is free.
    pub fn is_free(&self, cell: (i32, i32)) -> (free: bool)
        ensures
            free == !self@.contains_key(cell),
    {
        broadcast use vstd::std_specs::hash::group_hash_axioms;

        let k = key(cell);
        !self.slots.contains_key(&k)
    }

    /// Whether all of the cells `pos` are free.
    pub fn buildable(&self, pos: &[(i32, i32)]) -> (free: bool)
        ensures
            free == all_free(self@, pos@),
    {
        let mut i: usize = 0;
        while i < pos.len()
            invariant
                i <= pos.len(),
                forall|j: int| 0 <= j < i ==> !self@.contains_key(#[trigger] pos@[j]),
            decreases pos.len() - i,
        {
            if !self.is_free(pos[i]) {
                return false;
            }
            i += 1;
        }
        true
    }

    fn put(&mut self, cell: (i32, i32), slot: Slot)
        ensures
            final(self)@ == old(self)@.insert(cell, slot),
    {
        broadcast use vstd::std_specs::hash::group_hash_axioms;

        let k = key(cell);
        self.slots.insert(k, slot);
        proof {
            assert forall|c: (i32, i32)|
                self@.contains_key(c) == old(self)@.insert(cell, slot).contains_key(c) by {
                lemma_key_is_injective(c, cell);
            }
            assert forall|c: (i32, i32)| self@.contains_key(c) implies self@[c] == old(
                self,
            )@.insert(cell, slot)[c] by {
                lemma_key_is_injective(c, cell);
            }
            assert(self@ =~= old(self)@.insert(cell, slot));
        }
    }

    /// Puts the building `entity` on the cells `pos` if all of them are free,
    /// and changes nothing if one is not.
    pub fn add_building(&mut self, pos: &[(i32, i32)], entity: Entity) -> (done: Result<(), ()>)
        ensures
            done.is_ok() == all_free(old(self)@, pos@),
            final(self)@ == (if all_free(old(self)@, pos@) {
                with_slots(old(self)@, pos@, Slot::Occupied(entity))
            } else {
                old(self)@
            }),
    {
        if self.buildable(pos) {
            let mut i: usize = 0;
            while i < pos.len()
                invariant
                    i <= pos.len(),
                    self@ == with_slots(old(self)@, pos@.take(i as int), Slot::Occupied(entity)),
                decreases pos.len() - i,
            {
                self.put(pos[i], Slot::Occupied(entity));
                proof {
                    let before = pos@.take(i as int);
                    let after = pos@.take(i + 1);
                    assert forall|c: (i32, i32)| among(after, c) == (among(before, c) || c
                        == pos@[i as int]) by {
                        if among(before, c) {
                            let j = choose|j: int| 0 <= j < before.len() && before[j] == c;
                            assert(after[j] == c);
                        }
                        if c == pos@[i as int] {
                            assert(after[i as int] == c);
                        }
                        if among(after, c) {
                            let j = choose|j: int| 0 <= j < after.len() && after[j] == c;
                            if j < i {
                                assert(before[j] == c);
                            }
                        }
                    }
                    assert(self@ =~= with_slots(old(self)@, after, Slot::Occupied(entity)));
                }
                i += 1;
            }
            proof {
                assert(pos@.take(pos@.len() as int) =~= pos@);
            }
            Ok(())
        } else {
            Err(())
        }
    }

    /// Marks `pos` as blocked if it is free, and changes nothing if it is not.
    pub fn block(&mut self, pos: (i32, i32)) -> (done: Result<(), ()>)
        ensures
            done.is_ok() == !old(self)@.contains_key(pos),
            final(self)@ == (if old(self)@.contains_key(pos) {
                old(self)@
            } else {
                old(self)@.insert(pos, Slot::Blocked)
            }),
    {
        if self.is_free(pos) {
            self.put(pos, Slot::Blocked);
            Ok(())
        } else {
            Err(())
        }
    }

    /// Frees every cell.
    pub fn clear(&mut self)
        ensures
            final(self)@ == Map::<(i32, i32), Slot>::empty(),
    {
        broadcast use vstd::std_specs::hash::group_hash_axioms;

        self.slots.clear();
        assert(self@ =~= Map::<(i32, i32), Slot>::empty());
    }

    /// The building that stands on `pos`, if one does.
    pub fn get(&self, pos: (i32, i32)) -> (owner: Option<Entity>)
        ensures
            owner == self::owner(self@, pos),
    {
        broadcast use vstd::std_specs::hash::group_hash_axioms;

        let k = key(pos);
        match self.slots.get(&k) {
            Some(Slot::Occupied(entity)) => Some(*entity),
            _ => None,
        }
    }

    /// The cells that are not free, each once, in no particular order.
    pub fn keys(&self) -> (cells: Vec<(i32, i32)>)
        ensures
            cells@.no_duplicates(),
            cells@.to_set() == self@.dom(),
    {
        broadcast use vstd::std_specs::hash::group_hash_axioms;

        let mut cells: Vec<(i32, i32)> = Vec::new();
        let keys = self.slots.keys();
        let ghost filed: Seq<u64> = keys.remaining().unref();
        assert(filed.no_duplicates() && filed.to_set() == self.slots@.dom());
        for k in it: keys
            invariant
                filed == it.seq().unref(),
                cells@.len() == it.index(),
                forall|j: int| 0 <= j < cells@.len() ==> cells@[j] == cell_of(filed[j]),
        {
            cells.push(cell(*k));
        }
        proof {
            assert forall|a: int, b: int|
                0 <= a < cells@.len() && 0 <= b < cells@.len() && a != b implies cells@[a]
                != cells@[b] by {
                lemma_cell_of_key(filed[a]);
                lemma_cell_of_key(filed[b]);
            }
            assert forall|c: (i32, i32)| cells@.to_set().contains(c) == self@.dom().contains(
                c,
            ) by {
                if cells@.to_set().contains(c) {
                    let j = choose|j: int| 0 <= j < cells@.len() && cells@[j] == c;
                    lemma_cell_of_key(filed[j]);
                    assert(filed.to_set().contains(filed[j]));
                }
                if self@.dom().contains(c) {
                    assert(filed.to_set().contains(key_of(c)));
                    let j = choose|j: int| 0 <= j < filed.len() && filed[j] == key_of(c);
                    lemma_cell_of_key(filed[j]);
                    lemma_key_is_injective(cell_of(filed[j]), c);
                    assert(cells@[j] == c);
                }
            }
            assert(cells@.to_set() =~= self@.dom());
        }
        cells
    }

    /// The cells next to `cell`.
    pub fn neighbours(cell: (i32, i32)) -> (cells: Vec<(i32, i32)>)
        ensures
            cells@ == neighbours_spec(cell),
    {
        let mut cells: Vec<(i32, i32)> = Vec::new();
        if cell.0 < i32::MAX {
            cells.push((cell.0 + 1, cell.1));
        }
        if cell.0 > i32::MIN {
            cells.push((cell.0 - 1, cell.1));
        }
        if cell.1 < i32::MAX {
            cells.push((cell.0, cell.1 + 1));
        }
        if cell.1 > i32::MIN {
            cells.push((cell.0, cell.1 - 1));
        }
        assert(cells@ =~= neighbours_spec(cell));
        cells
    }

    /// The point on the ground nearest to `pos` whose coordinates are whole
    /// world units.
    pub fn snap_to_grid(pos: Position) -> (snapped: Position)
        ensures
            snapped == (Position {
                x: (clamped_i32(rounded_units(pos.x as int)) * UNIT) as i64,
                y: 0,
                z: (clamped_i32(rounded_units(pos.z as int)) * UNIT) as i64,
            }),
            snapped.in_world(),
    {
        Position::of_cell((round_to_cell(pos.x), round_to_cell(pos.z)))
    }

    /// The cell in which `pos` lies.
    pub fn to_grid_pos(pos: Position) -> (cell: (i32, i32))
        ensures
            cell == (
                clamped_i32(rounded_units(pos.x as int)),
                clamped_i32(rounded_units(pos.z as int)),
            ),
    {
        (round_to_cell(pos.x), round_to_cell(pos.z))
    }
}

} // verus!
