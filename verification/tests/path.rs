use gem_td::entity::Entity;
use gem_td::grid::Grid;
use gem_td::path::{extend_route, is_goal, resolve, walkable_neighbours};

#[test]
fn resolve_walks_straight_where_nothing_stands() {
    let grid = Grid::new();
    let route = resolve(&grid, &[(0, 0), (3, 0)]).unwrap();
    assert_eq!(route, vec![(0, 0), (1, 0), (2, 0), (3, 0)]);
}

#[test]
fn resolve_joins_the_legs_and_repeats_the_goal_between() {
    let grid = Grid::new();
    let route = resolve(&grid, &[(0, 0), (2, 0), (2, 1)]).unwrap();
    assert_eq!(route, vec![(0, 0), (1, 0), (2, 0), (2, 0), (2, 1)]);
}

#[test]
fn resolve_goes_around_a_building() {
    let mut grid = Grid::new();
    grid.add_building(&[(1, -1), (1, 0), (1, 1)], Entity(0)).unwrap();
    let route = resolve(&grid, &[(0, 0), (2, 0)]).unwrap();
    assert_eq!(route.len(), 7);
    assert_eq!(route[0], (0, 0));
    assert_eq!(route[6], (2, 0));
    for cell in &route {
        assert_eq!(grid.get(*cell), None);
    }
    for pair in route.windows(2) {
        let dx = (pair[0].0 - pair[1].0).abs();
        let dy = (pair[0].1 - pair[1].1).abs();
        assert_eq!(dx + dy, 1);
    }
}

#[test]
fn resolve_walks_over_blocked_cells() {
    let mut grid = Grid::new();
    grid.block((1, 0)).unwrap();
    let route = resolve(&grid, &[(0, 0), (2, 0)]).unwrap();
    assert_eq!(route, vec![(0, 0), (1, 0), (2, 0)]);
}

#[test]
fn resolve_fails_where_a_goal_is_walled_in() {
    let mut grid = Grid::new();
    grid.add_building(&[(4, 5), (6, 5), (5, 4), (5, 6)], Entity(0)).unwrap();
    assert_eq!(resolve(&grid, &[(0, 0), (5, 5)]), None);
    assert_eq!(resolve(&grid, &[(0, 0), (1, 0), (5, 5)]), None);
    assert_eq!(resolve(&grid, &[(0, 0), (5, 5), (1, 0)]), None);
}

#[test]
fn resolve_fails_beyond_the_border() {
    let grid = Grid::new();
    assert_eq!(resolve(&grid, &[(0, 0), (101, 0)]), None);
    assert_eq!(resolve(&grid, &[(99, 0), (100, 0)]), Some(vec![(99, 0), (100, 0)]));
}

#[test]
fn resolve_of_a_goal_reached_at_once() {
    let grid = Grid::new();
    assert_eq!(resolve(&grid, &[(7, 7), (7, 7)]), Some(vec![(7, 7)]));
}

#[test]
fn resolve_without_legs_is_empty() {
    let grid = Grid::new();
    assert_eq!(resolve(&grid, &[]), Some(vec![]));
    assert_eq!(resolve(&grid, &[(3, 3)]), Some(vec![]));
}

#[test]
fn walkable_neighbours_leave_out_buildings_and_the_outside() {
    let mut grid = Grid::new();
    grid.add_building(&[(1, 0)], Entity(0)).unwrap();
    grid.block((0, 1)).unwrap();
    assert_eq!(walkable_neighbours(&grid, (0, 0)), vec![(-1, 0), (0, 1), (0, -1)]);
    assert_eq!(walkable_neighbours(&grid, (100, 100)), vec![(99, 100), (100, 99)]);
    assert_eq!(walkable_neighbours(&grid, (200, 0)), vec![]);
}

#[test]
fn is_goal_compares_both_coordinates() {
    assert!(is_goal((1, 2), (1, 2)));
    assert!(!is_goal((1, 2), (2, 1)));
    assert!(!is_goal((1, 2), (1, 3)));
}

#[test]
fn extend_route_appends_a_found_leg() {
    let mut route = vec![(0, 0)];
    assert!(extend_route(&mut route, Some(vec![(0, 0), (0, 1)])));
    assert_eq!(route, vec![(0, 0), (0, 0), (0, 1)]);
    assert!(!extend_route(&mut route, None));
    assert_eq!(route, vec![(0, 0), (0, 0), (0, 1)]);
}
