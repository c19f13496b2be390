//! Lengths in whole numbers.
//!
//! A length is measured on the coordinates as they stand, longitude, latitude
//! and altitude side by side, so that a degree counts as much as a metre. The
//! length unit is one ten-millionth of either. The distance of two points is
//! the Euclidean one, rounded up to a whole unit.

use vstd::prelude::*;
use crate::geometry::PointZ;

verus! {

/// The length units in a metre.
pub const UNITS_PER_METER: u64 = 10_000_000;

/// The length units in a millimetre, the unit of altitudes.
pub const UNITS_PER_MILLIMETER: u64 = 10_000;

/// No squared distance of two points exceeds this number, 2 to the 92nd.
pub const MAX_DISTANCE_SQUARED: u128 = 0x1000_0000_0000_0000_0000_0000;

/// No distance of two points exceeds this number, 2 to the 46th.
pub const MAX_DISTANCE: u64 = 0x4000_0000_0000;

/// The step from `a` to `b` along the first axis, in length units.
pub open spec fn step_x(a: PointZ, b: PointZ) -> int {
    b.x - a.x
}

/// The step from `a` to `b` along the second axis, in length units.
pub open spec fn step_y(a: PointZ, b: PointZ) -> int {
    b.y - a.y
}

/// The step from `a` to `b` along the third axis, in length units.
pub open spec fn step_z(a: PointZ, b: PointZ) -> int {
    (b.z - a.z) * UNITS_PER_MILLIMETER
}

/// The square of the Euclidean distance of `a` and `b`.
pub open spec fn distance_squared(a: PointZ, b: PointZ) -> int {
    step_x(a, b) * step_x(a, b) + step_y(a, b) * step_y(a, b) + step_z(a, b) * step_z(a, b)
}

/// Whether `r` is the square root of `x`, rounded up: the least number, not
/// negative, whose square reaches `x`.
pub open spec fn is_ceil_sqrt(x: int, r: int) -> bool {
    &&& 0 <= r
    &&& x <= r * r
    &&& r > 0 ==> (r - 1) * (r - 1) < x
}

/// The square root of `x`, rounded up.
pub open spec fn ceil_sqrt(x: int) -> int {
    choose|r: int| is_ceil_sqrt(x, r)
}

/// The distance of `a` and `b`, rounded up to a whole length unit.
pub open spec fn distance(a: PointZ, b: PointZ) -> int {
    ceil_sqrt(distance_squared(a, b))
}

/// Squares grow with their base.
pub proof fn lemma_square_monotone(a: int, b: int)
    requires
        0 <= a <= b,
    ensures
        a * a <= b * b,
{
    assert(a * a <= b * b) by (nonlinear_arith)
        requires
            0 <= a <= b,
    ;
}

/// A number has one rounded-up square root at most.
pub proof fn lemma_ceil_sqrt_unique(x: int, r: int, s: int)
    requires
        is_ceil_sqrt(x, r),
        is_ceil_sqrt(x, s),
    ensures
        r == s,
{
    if r < s {
        lemma_square_monotone(r, s - 1);
    } else if s < r {
        lemma_square_monotone(s, r - 1);
    }
}

/// The rounded-up square root is the number that meets its definition.
pub proof fn lemma_ceil_sqrt_is(x: int, r: int)
    requires
        is_ceil_sqrt(x, r),
    ensures
        ceil_sqrt(x) == r,
{
    lemma_ceil_sqrt_unique(x, r, ceil_sqrt(x));
}

/// A squared distance is not negative and stays below the bound.
pub proof fn lemma_distance_squared_bounds(a: PointZ, b: PointZ)
    ensures
        0 <= distance_squared(a, b) <= MAX_DISTANCE_SQUARED,
        step_x(a, b) * step_x(a, b) <= distance_squared(a, b),
        step_y(a, b) * step_y(a, b) <= distance_squared(a, b),
        step_z(a, b) * step_z(a, b) <= distance_squared(a, b),
        distance_squared(a, b) == 0 <==> a == b,
{
    let x = step_x(a, b);
    let y = step_y(a, b);
    let z = step_z(a, b);
    assert(0 <= x * x <= 0x1_0000_0000_0000_0000 && (x * x == 0 <==> x == 0))
        by (nonlinear_arith)
        requires
            -0x1_0000_0000 < x < 0x1_0000_0000,
    ;
    assert(0 <= y * y <= 0x1_0000_0000_0000_0000 && (y * y == 0 <==> y == 0))
        by (nonlinear_arith)
        requires
            -0x1_0000_0000 < y < 0x1_0000_0000,
    ;
    assert(0 <= z * z <= 1_844_674_407_370_955_161_600_000_000 && (z * z == 0 <==> z == 0))
        by (nonlinear_arith)
        requires
            -42_949_672_960_000 < z < 42_949_672_960_000,
    ;
}

/// Every number that is not negative has a rounded-up square root.
pub proof fn lemma_ceil_sqrt_exists(x: int)
    requires
        0 <= x,
    ensures
        is_ceil_sqrt(x, ceil_sqrt(x)),
    decreases x,
{
    if x == 0 {
        assert(is_ceil_sqrt(0, 0));
    } else {
        lemma_ceil_sqrt_exists(x - 1);
        let r = ceil_sqrt(x - 1);
        if r * r >= x {
            assert(is_ceil_sqrt(x, r));
        } else {
            assert((r + 1) * (r + 1) >= x && r * r < x) by (nonlinear_arith)
                requires
                    r * r == x - 1,
                    0 <= r,
            ;
            assert(is_ceil_sqrt(x, r + 1));
        }
    }
}

/// A distance is not negative, stays below the bound, and is zero between
/// equal points only.
pub proof fn lemma_distance_bounds(a: PointZ, b: PointZ)
    ensures
        0 <= distance(a, b) <= MAX_DISTANCE,
        is_ceil_sqrt(distance_squared(a, b), distance(a, b)),
        distance(a, b) == 0 <==> a == b,
{
    lemma_distance_squared_bounds(a, b);
    let x = distance_squared(a, b);
    lemma_ceil_sqrt_exists(x);
    let r = distance(a, b);
    if r > MAX_DISTANCE {
        lemma_square_monotone(MAX_DISTANCE as int, r - 1);
        assert((MAX_DISTANCE as int) * (MAX_DISTANCE as int) == MAX_DISTANCE_SQUARED)
            by (nonlinear_arith);
    }
    assert(r == 0 <==> x == 0) by (nonlinear_arith)
        requires
            0 <= x,
            is_ceil_sqrt(x, r),
    ;
}

/// The square root of `x`, rounded up.
pub fn ceil_sqrt_u128(x: u128) -> (r: u64)
    requires
        x <= MAX_DISTANCE_SQUARED,
    ensures
        is_ceil_sqrt(x as int, r as int),
        r == ceil_sqrt(x as int),
        r <= MAX_DISTANCE,
{
    if x == 0 {
        proof {
            lemma_ceil_sqrt_is(0, 0);
        }
        return 0;
    }
    let mut low: u128 = 0;
    let mut high: u128 = 0x4000_0000_0000;
    assert(high * high == MAX_DISTANCE_SQUARED) by (nonlinear_arith)
        requires
            high == 0x4000_0000_0000,
    ;
    while high - low > 1
        invariant
            low < high <= 0x4000_0000_0000,
            low * low < x <= high * high,
            x <= MAX_DISTANCE_SQUARED,
        decreases high - low,
    {
        let middle: u128 = low + (high - low) / 2;
        assert(middle * middle <= 0x1000_0000_0000_0000_0000_0000) by (nonlinear_arith)
            requires
                middle <= 0x4000_0000_0000,
        ;
        if middle * middle >= x {
            high = middle;
        } else {
            low = middle;
        }
    }
    proof {
        lemma_ceil_sqrt_is(x as int, high as int);
    }
    high as u64
}

/// The square of the Euclidean distance of `a` and `b`.
pub fn distance_squared_of(a: &PointZ, b: &PointZ) -> (d: u128)
    ensures
        d == distance_squared(*a, *b),
        d <= MAX_DISTANCE_SQUARED,
{
    proof {
        lemma_distance_squared_bounds(*a, *b);
    }
    let x: i128 = b.x as i128 - a.x as i128;
    let y: i128 = b.y as i128 - a.y as i128;
    let z: i128 = (b.z as i128 - a.z as i128) * 10_000;
    assert(0 <= x * x <= 0x1_0000_0000_0000_0000) by (nonlinear_arith)
        requires
            -0x1_0000_0000 < x < 0x1_0000_0000,
    ;
    assert(0 <= y * y <= 0x1_0000_0000_0000_0000) by (nonlinear_arith)
        requires
            -0x1_0000_0000 < y < 0x1_0000_0000,
    ;
    assert(0 <= z * z <= 1_844_674_407_370_955_161_600_000_000) by (nonlinear_arith)
        requires
            -42_949_672_960_000 < z < 42_949_672_960_000,
    ;
    let sum: i128 = x * x + y * y + z * z;
    sum as u128
}

/// The distance of `a` and `b`, rounded up to a whole length unit.
pub fn distance_of(a: &PointZ, b: &PointZ) -> (d: u64)
    ensures
        d == distance(*a, *b),
        d <= MAX_DISTANCE,
        d == 0 <==> *a == *b,
{
    proof {
        lemma_distance_squared_bounds(*a, *b);
    }
    let squared: u128 = distance_squared_of(a, b);
    let d: u64 = ceil_sqrt_u128(squared);
    assert(d == 0 <==> squared == 0) by (nonlinear_arith)
        requires
            is_ceil_sqrt(squared as int, d as int),
    ;
    d
}

} // verus!
