//! Fixed-point geometry: positions, distances and bounded movement.

use vstd::prelude::*;

verus! {

/// Thousandths of a world unit in one world unit.
pub const UNIT: i64 = 1000;

/// Largest magnitude of a coordinate, in thousandths of a world unit.
/// Every grid cell with `i32` coordinates lies inside this bound.
pub const WORLD_LIMIT: i64 = 0x400_0000_0000;

/// A point in space, in thousandths of a world unit. The ground plane is
/// spanned by `x` and `z`; `y` is the height.
#[derive(Clone, Copy, PartialEq, Eq, Structural, Debug)]
pub struct Position {
    pub x: i64,
    pub y: i64,
    pub z: i64,
}

/// `r` is the integer square root of `n`, rounded down.
pub open spec fn is_floor_sqrt(n: int, r: int) -> bool {
    0 <= r && r * r <= n && n < (r + 1) * (r + 1)
}

/// The integer square root of `n`, rounded down.
pub open spec fn floor_sqrt(n: int) -> int {
    choose|r: int| is_floor_sqrt(n, r)
}

/// Absolute value of an integer.
pub open spec fn magnitude(v: int) -> int {
    if v >= 0 {
        v
    } else {
        -v
    }
}

/// `delta * numerator / denominator`, rounded towards zero.
pub open spec fn scaled(delta: int, numerator: int, denominator: int) -> int {
    if delta >= 0 {
        (delta * numerator) / denominator
    } else {
        -(((-delta) * numerator) / denominator)
    }
}

/// Squared distance between two points in space.
pub open spec fn distance_squared_spec(a: Position, b: Position) -> int {
    (a.x - b.x) * (a.x - b.x) + (a.y - b.y) * (a.y - b.y) + (a.z - b.z) * (a.z - b.z)
}

/// Squared distance between two points, measured on the ground plane.
pub open spec fn planar_distance_squared_spec(a: Position, b: Position) -> int {
    (a.x - b.x) * (a.x - b.x) + (a.z - b.z) * (a.z - b.z)
}

/// Where a point at `current` stands after moving at most `step` towards
/// `target`: on the target when it is within reach, else `step` along the
/// straight line to it, each coordinate rounded towards `current`.
pub open spec fn move_towards_spec(current: Position, target: Position, step: int) -> Position {
    let d2 = distance_squared_spec(current, target);
    if d2 <= step * step {
        target
    } else {
        let dist = floor_sqrt(d2);
        Position {
            x: (current.x + scaled(target.x - current.x, step, dist)) as i64,
            y: (current.y + scaled(target.y - current.y, step, dist)) as i64,
            z: (current.z + scaled(target.z - current.z, step, dist)) as i64,
        }
    }
}

/// `v` lies between `a` and `b`, whichever of the two is the smaller.
pub open spec fn between(a: int, v: int, b: int) -> bool {
    (a <= v <= b) || (b <= v <= a)
}

impl Position {
    /// Every coordinate is within [`WORLD_LIMIT`] of the origin.
    pub open spec fn in_world(self) -> bool {
        &&& -WORLD_LIMIT <= self.x <= WORLD_LIMIT
        &&& -WORLD_LIMIT <= self.y <= WORLD_LIMIT
        &&& -WORLD_LIMIT <= self.z <= WORLD_LIMIT
    }

    /// Whether every coordinate is within [`WORLD_LIMIT`] of the origin.
    pub fn is_in_world(&self) -> (inside: bool)
        ensures
            inside == self.in_world(),
    {
        -WORLD_LIMIT <= self.x && self.x <= WORLD_LIMIT && -WORLD_LIMIT <= self.y && self.y
            <= WORLD_LIMIT && -WORLD_LIMIT <= self.z && self.z <= WORLD_LIMIT
    }

    /// The point with the given coordinates, or `None` when one of them is
    /// outside the world.
    pub fn new(x: i64, y: i64, z: i64) -> (p: Option<Position>)
        ensures
            p == (if (Position { x, y, z }).in_world() {
                Some(Position { x, y, z })
            } else {
                None::<Position>
            }),
    {
        if -WORLD_LIMIT <= x && x <= WORLD_LIMIT && -WORLD_LIMIT <= y && y <= WORLD_LIMIT
            && -WORLD_LIMIT <= z && z <= WORLD_LIMIT {
            Some(Position { x, y, z })
        } else {
            None
        }
    }

    /// The centre of a grid cell, on the ground.
    pub fn of_cell(cell: (i32, i32)) -> (p: Position)
        ensures
            p == (Position { x: (cell.0 * UNIT) as i64, y: 0, z: (cell.1 * UNIT) as i64 }),
            p.in_world(),
    {
        Position { x: cell.0 as i64 * UNIT, y: 0, z: cell.1 as i64 * UNIT }
    }

    /// Squared distance to `other` in space.
    pub fn distance_squared(&self, other: &Position) -> (d: u128)
        requires
            self.in_world(),
            other.in_world(),
        ensures
            d == distance_squared_spec(*self, *other),
    {
        let dx = abs_diff(self.x, other.x) as u128;
        let dy = abs_diff(self.y, other.y) as u128;
        let dz = abs_diff(self.z, other.z) as u128;
        proof {
            lemma_square_bound(dx as int);
            lemma_square_bound(dy as int);
            lemma_square_bound(dz as int);
            lemma_square_of_magnitude(self.x - other.x);
            lemma_square_of_magnitude(self.y - other.y);
            lemma_square_of_magnitude(self.z - other.z);
        }
        dx * dx + dy * dy + dz * dz
    }

    /// Squared distance to `other` on the ground plane.
    pub fn planar_distance_squared(&self, other: &Position) -> (d: u128)
        requires
            self.in_world(),
            other.in_world(),
        ensures
            d == planar_distance_squared_spec(*self, *other),
    {
        let dx = abs_diff(self.x, other.x) as u128;
        let dz = abs_diff(self.z, other.z) as u128;
        proof {
            lemma_square_bound(dx as int);
            lemma_square_bound(dz as int);
            lemma_square_of_magnitude(self.x - other.x);
            lemma_square_of_magnitude(self.z - other.z);
        }
        dx * dx + dz * dz
    }
}

/// The square of a coordinate difference inside the world fits well within
/// 128 bits.
pub proof fn lemma_square_bound(d: int)
    requires
        0 <= d <= 2 * WORLD_LIMIT,
    ensures
        0 <= d * d <= 0x40_0000_0000_0000_0000_0000,
{
    assert(0 <= d * d <= 0x800_0000_0000 * 0x800_0000_0000) by (nonlinear_arith)
        requires
            0 <= d <= 0x800_0000_0000,
    ;
}

/// A number and its magnitude have the same square.
pub proof fn lemma_square_of_magnitude(v: int)
    ensures
        magnitude(v) * magnitude(v) == v * v,
{
    assert((-v) * (-v) == v * v) by (nonlinear_arith);
}

/// A number has at most one integer square root.
pub proof fn lemma_floor_sqrt_unique(n: int, a: int, b: int)
    requires
        is_floor_sqrt(n, a),
        is_floor_sqrt(n, b),
    ensures
        a == b,
{
    if a < b {
        assert((a + 1) * (a + 1) <= b * b) by (nonlinear_arith)
            requires
                0 <= a + 1 <= b,
        ;
    }
    if b < a {
        assert((b + 1) * (b + 1) <= a * a) by (nonlinear_arith)
            requires
                0 <= b + 1 <= a,
        ;
    }
}

/// Distance between two coordinates.
pub fn abs_diff(a: i64, b: i64) -> (d: u64)
    ensures
        d == magnitude(a - b),
{
    let d: i128 = a as i128 - b as i128;
    if d >= 0 {
        d as u64
    } else {
        (-d) as u64
    }
}

/// Integer square root, rounded down.
pub fn isqrt(n: u128) -> (r: u64)
    ensures
        is_floor_sqrt(n as int, r as int),
        r == floor_sqrt(n as int),
{
    let mut lo: u128 = 0;
    let mut hi: u128 = 0x1_0000_0000_0000_0000;
    assert(n < hi * hi) by (nonlinear_arith)
        requires
            hi == 0x1_0000_0000_0000_0000,
            n <= u128::MAX,
    ;
    while hi - lo > 1
        invariant
            lo < hi <= 0x1_0000_0000_0000_0000,
            lo * lo <= n,
            n < hi * hi,
        decreases hi - lo,
    {
        let mid: u128 = lo + (hi - lo) / 2;
        assert(mid * mid <= u128::MAX) by (nonlinear_arith)
            requires
                0 <= mid <= 0xFFFF_FFFF_FFFF_FFFF,
        ;
        if mid * mid <= n {
            lo = mid;
        } else {
            hi = mid;
        }
    }
    proof {
        assert(is_floor_sqrt(n as int, lo as int));
        lemma_floor_sqrt_unique(n as int, lo as int, floor_sqrt(n as int));
    }
    lo as u64
}

/// `delta * numerator / denominator` rounded towards zero, for a part
/// `numerator / denominator` of at most one.
fn scale(delta: i64, numerator: u64, denominator: u64) -> (r: i64)
    requires
        0 < denominator,
        numerator <= denominator,
    ensures
        r == scaled(delta as int, numerator as int, denominator as int),
        between(0, r as int, delta as int),
{
    let m: u128 = abs_diff(delta, 0) as u128;
    assert(m * numerator <= u128::MAX) by (nonlinear_arith)
        requires
            0 <= m <= 0xFFFF_FFFF_FFFF_FFFF,
            0 <= numerator <= 0xFFFF_FFFF_FFFF_FFFF,
    ;
    let q: u128 = m * (numerator as u128) / (denominator as u128);
    proof {
        lemma_part_is_smaller(m as int, numerator as int, denominator as int);
    }
    if delta >= 0 {
        q as i64
    } else {
        let r: i128 = -(q as i128);
        r as i64
    }
}

/// A part of at most one of a magnitude is at most that magnitude.
pub proof fn lemma_part_is_smaller(m: int, numerator: int, denominator: int)
    requires
        0 <= m,
        0 <= numerator <= denominator,
        0 < denominator,
    ensures
        0 <= (m * numerator) / denominator <= m,
{
    assert(0 <= m * numerator <= m * denominator) by (nonlinear_arith)
        requires
            0 <= m,
            0 <= numerator <= denominator,
    ;
    assert(m * denominator == denominator * m) by (nonlinear_arith);
    vstd::arithmetic::div_mod::lemma_div_is_ordered(m * numerator, denominator * m, denominator);
    vstd::arithmetic::div_mod::lemma_div_multiples_vanish(m, denominator);
    vstd::arithmetic::div_mod::lemma_div_pos_is_pos(m * numerator, denominator);
}

/// Moves a point at most `step` towards `target`, never past it.
pub fn move_towards(current: Position, target: Position, step: u64) -> (next: Position)
    requires
        current.in_world(),
        target.in_world(),
    ensures
        next == move_towards_spec(current, target, step as int),
        next.in_world(),
        between(current.x as int, next.x as int, target.x as int),
        between(current.y as int, next.y as int, target.y as int),
        between(current.z as int, next.z as int, target.z as int),
{
    let d2 = current.distance_squared(&target);
    assert(step * step <= u128::MAX) by (nonlinear_arith)
        requires
            0 <= step <= 0xFFFF_FFFF_FFFF_FFFF,
    ;
    if d2 <= (step as u128) * (step as u128) {
        target
    } else {
        let dist = isqrt(d2);
        assert(0 < dist) by (nonlinear_arith)
            requires
                (step as int) * (step as int) < d2,
                d2 < (dist + 1) * (dist + 1),
                0 <= dist,
        ;
        assert(step <= dist) by (nonlinear_arith)
            requires
                (step as int) * (step as int) < d2,
                d2 < (dist + 1) * (dist + 1),
                0 <= step,
                0 <= dist,
        ;
        let mx = scale(target.x - current.x, step, dist);
        let my = scale(target.y - current.y, step, dist);
        let mz = scale(target.z - current.z, step, dist);
        Position { x: current.x + mx, y: current.y + my, z: current.z + mz }
    }
}

} // verus!
