use gem_td::math_utils::{abs_diff, isqrt, move_towards, Position, WORLD_LIMIT};

fn at(x: i64, y: i64, z: i64) -> Position {
    Position { x, y, z }
}

#[test]
fn isqrt_rounds_down() {
    assert_eq!(isqrt(0), 0);
    assert_eq!(isqrt(1), 1);
    assert_eq!(isqrt(15), 3);
    assert_eq!(isqrt(16), 4);
    assert_eq!(isqrt(2_000_000), 1414);
    assert_eq!(isqrt(u128::MAX), u64::MAX);
}

#[test]
fn abs_diff_covers_the_whole_range() {
    assert_eq!(abs_diff(3, 10), 7);
    assert_eq!(abs_diff(10, 3), 7);
    assert_eq!(abs_diff(-4, 4), 8);
    assert_eq!(abs_diff(i64::MIN, i64::MAX), u64::MAX);
}

#[test]
fn position_new_rejects_points_outside_the_world() {
    assert_eq!(Position::new(1, 2, 3), Some(at(1, 2, 3)));
    assert_eq!(Position::new(WORLD_LIMIT, -WORLD_LIMIT, 0), Some(at(WORLD_LIMIT, -WORLD_LIMIT, 0)));
    assert_eq!(Position::new(WORLD_LIMIT + 1, 0, 0), None);
    assert_eq!(Position::new(0, 0, -WORLD_LIMIT - 1), None);
}

#[test]
fn position_of_cell_scales_to_thousandths() {
    assert_eq!(Position::of_cell((2, -26)), at(2000, 0, -26000));
    assert_eq!(Position::of_cell((i32::MAX, i32::MIN)), at(2147483647000, 0, -2147483648000));
}

#[test]
fn distances_are_squared() {
    let a = at(1000, 2000, 3000);
    let b = at(4000, 6000, 3000);
    assert_eq!(a.distance_squared(&b), 25_000_000);
    assert_eq!(a.planar_distance_squared(&b), 9_000_000);
    assert_eq!(b.distance_squared(&a), 25_000_000);
}

#[test]
fn move_towards_goes_a_step_along_the_line() {
    let next = move_towards(at(0, 0, 0), at(3000, 0, 4000), 2500);
    assert_eq!(next, at(1500, 0, 2000));
    let back = move_towards(at(0, 0, 0), at(-3000, 0, -4000), 2500);
    assert_eq!(back, at(-1500, 0, -2000));
}

#[test]
fn move_towards_never_overshoots() {
    assert_eq!(move_towards(at(0, 0, 0), at(3000, 0, 4000), 5000), at(3000, 0, 4000));
    assert_eq!(move_towards(at(0, 0, 0), at(3000, 0, 4000), 6000), at(3000, 0, 4000));
    assert_eq!(move_towards(at(0, 0, 0), at(3000, 0, 4000), u64::MAX), at(3000, 0, 4000));
    assert_eq!(move_towards(at(7, 8, 9), at(7, 8, 9), 0), at(7, 8, 9));
}

#[test]
fn move_towards_rounds_towards_where_it_was() {
    assert_eq!(move_towards(at(0, 0, 0), at(1000, 0, 1000), 1000), at(707, 0, 707));
    assert_eq!(move_towards(at(0, 0, 0), at(-1000, 0, 1000), 1000), at(-707, 0, 707));
}

#[test]
fn move_towards_with_no_step_stays() {
    assert_eq!(move_towards(at(0, 0, 0), at(3000, 0, 4000), 0), at(0, 0, 0));
}

#[test]
fn is_in_world_goes_by_every_coordinate() {
    assert!(at(WORLD_LIMIT, -WORLD_LIMIT, 0).is_in_world());
    assert!(!at(0, WORLD_LIMIT + 1, 0).is_in_world());
    assert!(!at(0, 0, i64::MIN).is_in_world());
}
