//! Routes for creeps: from goal to goal around the buildings.

use vstd::prelude::*;
use crate::grid::{neighbours_spec, Grid, Slot};
use pathfinding::prelude::bfs;

verus! {

/// No route leaves the square of cells whose coordinates are at most this
/// far from zero, which keeps every search finite.
pub const BORDER: i32 = 100;

/// A creep can step on `cell`: it lies inside the border and no building
/// stands on it.
pub open spec fn walkable(slots: Map<(i32, i32), Slot>, cell: (i32, i32)) -> bool {
    &&& -BORDER <= cell.0 <= BORDER
    &&& -BORDER <= cell.1 <= BORDER
    &&& !(slots.contains_key(cell) && slots[cell] is Occupied)
}

/// The cells next to `cell` on which a creep can step.
pub open spec fn walkable_neighbours_spec(slots: Map<(i32, i32), Slot>, cell: (i32, i32)) -> Seq<
    (i32, i32),
> {
    neighbours_spec(cell).filter(|c: (i32, i32)| walkable(slots, c))
}

/// The route that `pathfinding::prelude::bfs` finds from `start` to `goal`
/// over the walkable cells of `slots`, or `None` where it finds none. Which
/// of several shortest routes it is depends on the order in which the search
/// visits the cells, which only the search itself lays down.
pub uninterp spec fn bfs_route(
    slots: Map<(i32, i32), Slot>,
    start: (i32, i32),
    goal: (i32, i32),
) -> Option<Seq<(i32, i32)>>;

/// `cells` lead from `start` to `goal`, each step to a walkable cell next to
/// the one before.
pub open spec fn is_walk(
    slots: Map<(i32, i32), Slot>,
    cells: Seq<(i32, i32)>,
    start: (i32, i32),
    goal: (i32, i32),
) -> bool {
    &&& cells.len() >= 1
    &&& cells[0] == start
    &&& cells.last() == goal
    &&& forall|i: int|
        0 <= i < cells.len() - 1 ==> walkable_neighbours_spec(slots, cells[i]).contains(
            #[trigger] cells[i + 1],
        )
}

/// `route` is a shortest way from `start` to `goal`, or there is no way and
/// `route` is `None`.
pub open spec fn is_shortest_walk(
    slots: Map<(i32, i32), Slot>,
    route: Option<Seq<(i32, i32)>>,
    start: (i32, i32),
    goal: (i32, i32),
) -> bool {
    match route {
        Some(cells) => {
            &&& is_walk(slots, cells, start, goal)
            &&& forall|other: Seq<(i32, i32)>| #[trigger]
                is_walk(slots, other, start, goal) ==> cells.len() <= other.len()
        },
        None => forall|other: Seq<(i32, i32)>| !#[trigger] is_walk(slots, other, start, goal),
    }
}

/// The cells of a route that may be missing.
pub open spec fn cells_of(route: Option<Vec<(i32, i32)>>) -> Option<Seq<(i32, i32)>> {
    match route {
        Some(cells) => Some(cells@),
        None => None,
    }
}

/// The routes between the first `n` of `goals`, one after the other, or
/// `None` when one of them cannot be reached from the one before it. Each
/// route holds both of its ends, so a goal between two routes stands twice.
pub open spec fn resolved(slots: Map<(i32, i32), Slot>, goals: Seq<(i32, i32)>, n: nat) -> Option<
    Seq<(i32, i32)>,
>
    decreases n,
{
    if n <= 1 {
        Some(Seq::empty())
    } else {
        match (
            resolved(slots, goals, (n - 1) as nat),
            bfs_route(slots, goals[n - 2], goals[n - 1]),
        ) {
            (Some(before), Some(leg)) => Some(before + leg),
            _ => None,
        }
    }
}

/// The cells next to `cell` on which a creep can step.
pub fn walkable_neighbours(grid: &Grid, cell: (i32, i32)) -> (cells: Vec<(i32, i32)>)
    ensures
        cells@ == walkable_neighbours_spec(grid@, cell),
{
    let all = Grid::neighbours(cell);
    let mut cells: Vec<(i32, i32)> = Vec::new();
    let ghost keep = |c: (i32, i32)| walkable(grid@, c);
    let mut i: usize = 0;
    proof {
        reveal(Seq::filter);
        assert(all@.take(0) =~= Seq::<(i32, i32)>::empty());
    }
    while i < all.len()
        invariant
            i <= all.len(),
            keep == |c: (i32, i32)| walkable(grid@, c),
            cells@ == all@.take(i as int).filter(keep),
        decreases all.len() - i,
    {
        let c = all[i];
        proof {
            reveal(Seq::filter);
            assert(all@.take(i + 1).drop_last() =~= all@.take(i as int));
        }
        if -BORDER <= c.0 && c.0 <= BORDER && -BORDER <= c.1 && c.1 <= BORDER && grid.get(
            c,
        ).is_none() {
            cells.push(c);
        }
        i += 1;
    }
    proof {
        assert(all@.take(all@.len() as int) =~= all@);
    }
    cells
}

/// Whether `cell` is the goal of a search.
pub fn is_goal(cell: (i32, i32), goal: (i32, i32)) -> (reached: bool)
    ensures
        reached == (cell == goal),
{
    cell.0 == goal.0 && cell.1 == goal.1
}

/// Runs `pathfinding::prelude::bfs` from `start`, with the walkable
/// neighbours of a cell as its successors, until it reaches `goal`.
///
/// Believed of it: the search is a function of the grid and the two cells;
/// the route that it returns holds both of its ends, goes from cell to
/// walkable neighbour, and is as short as any such way; it returns none only
/// where there is no such way.
#[verifier::external_body]
fn shortest_route(grid: &Grid, start: (i32, i32), goal: (i32, i32)) -> (route: Option<
    Vec<(i32, i32)>,
>)
    ensures
        cells_of(route) == bfs_route(grid@, start, goal),
        is_shortest_walk(grid@, cells_of(route), start, goal),
{
    bfs(&start, |cell| walkable_neighbours(grid, *cell), |cell| is_goal(*cell, goal))
}

/// One leg of a route was found or not, and with it the route so far.
pub fn extend_route(route: &mut Vec<(i32, i32)>, leg: Option<Vec<(i32, i32)>>) -> (found: bool)
    ensures
        found == leg.is_some(),
        final(route)@ == (match leg {
            Some(cells) => old(route)@ + cells@,
            None => old(route)@,
        }),
{
    match leg {
        Some(mut cells) => {
            route.append(&mut cells);
            true
        },
        None => false,
    }
}

/// The route of a creep that visits `goals` in order, each leg the shortest
/// way over walkable cells, or `None` when a goal cannot be reached from the
/// one before it.
pub fn resolve(grid: &Grid, goals: &[(i32, i32)]) -> (route: Option<Vec<(i32, i32)>>)
    ensures
        cells_of(route) == resolved(grid@, goals@, goals@.len()),
        forall|k: int|
            1 <= k < goals@.len() && resolved(grid@, goals@, k as nat) is Some ==> is_shortest_walk(
                grid@,
                #[trigger] bfs_route(grid@, goals@[k - 1], goals@[k]),
                goals@[k - 1],
                goals@[k],
            ),
        match route {
            Some(cells) => goals@.len() >= 2 ==> cells@.len() >= goals@.len() - 1 && cells@[0]
                == goals@[0] && cells@.last() == goals@.last(),
            None => goals@.len() >= 2,
        },
{
    let mut res: Vec<(i32, i32)> = Vec::new();
    let mut i: usize = 1;
    while i < goals.len()
        invariant
            1 <= i,
            resolved(grid@, goals@, i as nat) == Some(res@),
            i <= goals.len() || i == 1,
            forall|k: int|
                1 <= k < i ==> is_shortest_walk(
                    grid@,
                    #[trigger] bfs_route(grid@, goals@[k - 1], goals@[k]),
                    goals@[k - 1],
                    goals@[k],
                ),
            i >= 2 ==> res@.len() >= i - 1 && res@[0] == goals@[0] && res@.last() == goals@[i - 1],
        decreases goals.len() - i,
    {
        let leg = shortest_route(grid, goals[i - 1], goals[i]);
        if !extend_route(&mut res, leg) {
            proof {
                lemma_unreachable_goal_fails(grid@, goals@, (i + 1) as nat, goals@.len());
                assert forall|k: int|
                    1 <= k < goals@.len() && resolved(grid@, goals@, k as nat)
                        is Some implies is_shortest_walk(
                    grid@,
                    #[trigger] bfs_route(grid@, goals@[k - 1], goals@[k]),
                    goals@[k - 1],
                    goals@[k],
                ) by {
                    if k > i {
                        lemma_unreachable_goal_fails(grid@, goals@, (i + 1) as nat, k as nat);
                    }
                }
            }
            return None;
        }
        i += 1;
    }
    proof {
        if goals@.len() == 0 {
            assert(resolved(grid@, goals@, 0) == resolved(grid@, goals@, 1));
        }
    }
    Some(res)
}

/// Once a goal cannot be reached, no longer list of goals has a route.
pub proof fn lemma_unreachable_goal_fails(
    slots: Map<(i32, i32), Slot>,
    goals: Seq<(i32, i32)>,
    n: nat,
    m: nat,
)
    requires
        resolved(slots, goals, n) is None,
        n <= m,
    ensures
        resolved(slots, goals, m) is None,
    decreases m,
{
    if n < m {
        lemma_unreachable_goal_fails(slots, goals, n, (m - 1) as nat);
    }
}

} // verus!
