//! The first map: its blocked cells, the route of its creeps and the creeps
//! of each round.

use vstd::prelude::*;
use crate::creeps::{CreepBundle, Life, Movement, Speed, Type};
use crate::grid::{with_slots, Grid, Slot};

verus! {

/// How many two-by-two squares of the map are blocked.
pub const BLOCKED_SQUARES: usize = 28;

/// The least corners of the blocked squares, in squares: each stands for the
/// four cells from twice its coordinates on.
pub open spec fn blocked_slots_spec() -> Seq<(i32, i32)> {
    seq![
        (0, 1), (1, 1), (1, 2), (1, 12),
        (1, 13), (1, 14), (2, 1), (2, 13),
        (8, 1), (9, 1), (9, 2), (9, 20),
        (9, 21), (9, 22), (10, 1), (10, 21),
        (16, 1), (16, 13), (17, 0), (17, 1),
        (17, 2), (17, 12), (17, 13), (18, 13),
        (28, 21), (29, 21), (29, 22), (30, 21),
    ]
}

/// The least corners of the blocked squares, in squares.
pub fn blocked_slots() -> (slots: Vec<(i32, i32)>)
    ensures
        slots@ == blocked_slots_spec(),
{
    let slots = vec![
        (0, 1), (1, 1), (1, 2), (1, 12),
        (1, 13), (1, 14), (2, 1), (2, 13),
        (8, 1), (9, 1), (9, 2), (9, 20),
        (9, 21), (9, 22), (10, 1), (10, 21),
        (16, 1), (16, 13), (17, 0), (17, 1),
        (17, 2), (17, 12), (17, 13), (18, 13),
        (28, 21), (29, 21), (29, 22), (30, 21),
    ];
    assert(slots@ =~= blocked_slots_spec());
    slots
}

/// The cells to which a creep walks when no route around the buildings is
/// found for it, and the goals of the route when one is.
pub open spec fn creep_route_spec() -> Seq<(i32, i32)> {
    seq![
        (2, 2), (2, 26), (34, 26), (34, 2),
        (18, 2), (18, 42), (58, 42), (58, 80),
    ]
}

/// The goals of a creep, in order.
pub fn creep_route() -> (route: Vec<(i32, i32)>)
    ensures
        route@ == creep_route_spec(),
{
    let route = vec![
        (2, 2), (2, 26), (34, 26), (34, 2),
        (18, 2), (18, 42), (58, 42), (58, 80),
    ];
    assert(route@ =~= creep_route_spec());
    route
}

/// The four cells of each of the first `n` squares of `slots`.
pub open spec fn cells_of_squares(slots: Seq<(i32, i32)>, n: nat) -> Seq<(i32, i32)>
    decreases n,
{
    if n == 0 {
        Seq::empty()
    } else {
        let (x, y) = slots[n - 1];
        cells_of_squares(slots, (n - 1) as nat) + seq![
            ((2 * x) as i32, (2 * y) as i32),
            ((2 * x) as i32, (2 * y + 1) as i32),
            ((2 * x + 1) as i32, (2 * y) as i32),
            ((2 * x + 1) as i32, (2 * y + 1) as i32),
        ]
    }
}

/// The cells of the map on which nothing can be built.
pub open spec fn blocked_cells() -> Seq<(i32, i32)> {
    cells_of_squares(blocked_slots_spec(), BLOCKED_SQUARES as nat)
}

/// The speed of the creeps of every round.
pub open spec fn creep_speed() -> Speed {
    Speed { base: 5000, min: 200, modifier: 0 }
}

/// Every fourth round up to the fortieth brings flying creeps.
pub open spec fn creep_kind(level: u32) -> Type {
    if 1 <= level <= 41 && level % 4 == 0 {
        Type::Flying
    } else {
        Type::Ground
    }
}

/// The life of the creeps of each round.
pub open spec fn creep_life(level: u32) -> u64 {
    if level == 1 {
        10
    } else if level == 2 {
        30
    } else if level == 3 {
        55
    } else if level == 4 {
        70
    } else if level == 5 {
        90
    } else if level == 6 {
        120
    } else if level == 7 {
        178
    } else if level == 8 {
        240
    } else if level == 9 {
        300
    } else if level == 10 {
        470
    } else if level == 11 {
        490
    } else if level == 12 {
        450
    } else if level == 13 {
        570
    } else if level == 14 {
        650
    } else if level == 15 {
        1000
    } else if level == 16 {
        725
    } else if level == 17 {
        1350
    } else if level == 18 {
        1550
    } else if level == 19 {
        1950
    } else if level == 20 {
        1350
    } else if level == 21 {
        2300
    } else if level == 22 {
        2530
    } else if level == 23 {
        3000
    } else if level == 24 {
        2500
    } else if level == 25 {
        3750
    } else if level == 26 {
        4500
    } else if level == 27 {
        5000
    } else if level == 28 {
        4150
    } else if level == 29 {
        6750
    } else if level == 30 {
        7150
    } else if level == 31 {
        8000
    } else if level == 32 {
        6200
    } else if level == 33 {
        9550
    } else if level == 34 {
        10200
    } else if level == 35 {
        11500
    } else if level == 36 {
        8500
    } else if level == 37 {
        13000
    } else if level == 38 {
        15000
    } else if level == 39 {
        17000
    } else if level == 40 {
        10500
    } else if level == 41 {
        19500
    } else {
        23000
    }
}

/// The creep of the round `level`, at the start of the route.
pub fn get_creep(level: u32) -> (creep: CreepBundle)
    ensures
        creep.life == Life(creep_life(level)),
        creep.kind == creep_kind(level),
        creep.speed == creep_speed(),
        creep.movement.route@ == creep_route_spec(),
        creep.movement.destination == 0,
{
    let movement = Movement { route: creep_route(), destination: 0 };
    let speed = Speed { base: 5000, min: 200, modifier: 0 };
    let (life, kind): (u64, Type) = match level {
        1 => (10, Type::Ground),
        2 => (30, Type::Ground),
        3 => (55, Type::Ground),
        4 => (70, Type::Flying),
        5 => (90, Type::Ground),
        6 => (120, Type::Ground),
        7 => (178, Type::Ground),
        8 => (240, Type::Flying),
        9 => (300, Type::Ground),
        10 => (470, Type::Ground),
        11 => (490, Type::Ground),
        12 => (450, Type::Flying),
        13 => (570, Type::Ground),
        14 => (650, Type::Ground),
        15 => (1000, Type::Ground),
        16 => (725, Type::Flying),
        17 => (1350, Type::Ground),
        18 => (1550, Type::Ground),
        19 => (1950, Type::Ground),
        20 => (1350, Type::Flying),
        21 => (2300, Type::Ground),
        22 => (2530, Type::Ground),
        23 => (3000, Type::Ground),
        24 => (2500, Type::Flying),
        25 => (3750, Type::Ground),
        26 => (4500, Type::Ground),
        27 => (5000, Type::Ground),
        28 => (4150, Type::Flying),
        29 => (6750, Type::Ground),
        30 => (7150, Type::Ground),
        31 => (8000, Type::Ground),
        32 => (6200, Type::Flying),
        33 => (9550, Type::Ground),
        34 => (10200, Type::Ground),
        35 => (11500, Type::Ground),
        36 => (8500, Type::Flying),
        37 => (13000, Type::Ground),
        38 => (15000, Type::Ground),
        39 => (17000, Type::Ground),
        40 => (10500, Type::Flying),
        41 => (19500, Type::Ground),
        _ => (23000, Type::Ground),
    };
    CreepBundle { life: Life(life), movement, speed, kind }
}

/// Frees the grid and blocks the cells of the map on which nothing can be
/// built.
pub fn build_grid(grid: &mut Grid)
    ensures
        final(grid)@ == with_slots(Map::empty(), blocked_cells(), Slot::Blocked),
{
    grid.clear();
    let slots = blocked_slots();
    let mut i: usize = 0;
    assert(grid@ =~= with_slots(Map::empty(), cells_of_squares(slots@, 0), Slot::Blocked));
    while i < slots.len()
        invariant
            i <= slots.len(),
            slots@ == blocked_slots_spec(),
            grid@ == with_slots(Map::empty(), cells_of_squares(slots@, i as nat), Slot::Blocked),
        decreases slots.len() - i,
    {
        let (x, y) = slots[i];
        assert(0 <= x <= 30 && 0 <= y <= 22);
        let ghost before = cells_of_squares(slots@, i as nat);
        let cells = [(2 * x, 2 * y), (2 * x, 2 * y + 1), (2 * x + 1, 2 * y), (2 * x + 1, 2 * y + 1)];
        block_all(grid, &cells, Ghost(before));
        assert(before + cells@ =~= cells_of_squares(slots@, (i + 1) as nat));
        i += 1;
    }
}

/// Blocks each of `cells` on a grid that holds blocked cells only.
fn block_all(grid: &mut Grid, cells: &[(i32, i32)], Ghost(before): Ghost<Seq<(i32, i32)>>)
    requires
        old(grid)@ == with_slots(Map::empty(), before, Slot::Blocked),
    ensures
        final(grid)@ == with_slots(Map::empty(), before + cells@, Slot::Blocked),
{
    let mut k: usize = 0;
    assert(before + cells@.take(0) =~= before);
    while k < cells.len()
        invariant
            k <= cells.len(),
            grid@ == with_slots(Map::empty(), before + cells@.take(k as int), Slot::Blocked),
        decreases cells.len() - k,
    {
        let ghost so_far = before + cells@.take(k as int);
        let ghost then = before + cells@.take(k + 1);
        let _ = grid.block(cells[k]);
        proof {
            assert(then =~= so_far.push(cells@[k as int]));
            assert forall|c: (i32, i32)| crate::grid::among(then, c) == (crate::grid::among(
                so_far,
                c,
            ) || c == cells@[k as int]) by {
                if crate::grid::among(so_far, c) {
                    let j = choose|j: int| 0 <= j < so_far.len() && so_far[j] == c;
                    assert(then[j] == c);
                }
                if c == cells@[k as int] {
                    assert(then[so_far.len() as int] == c);
                }
                if crate::grid::among(then, c) {
                    let j = choose|j: int| 0 <= j < then.len() && then[j] == c;
                    if j < so_far.len() {
                        assert(so_far[j] == c);
                    }
                }
            }
            assert(grid@ =~= with_slots(Map::empty(), then, Slot::Blocked));
        }
        k += 1;
    }
    assert(cells@.take(cells@.len() as int) =~= cells@);
}

} // verus!
