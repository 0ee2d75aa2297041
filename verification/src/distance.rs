//! The integer hex-grid distance between two cube points.

use vstd::prelude::*;
use crate::Cube;

verus! {

/// Absolute value of a mathematical integer.
pub open spec fn abs_i(v: int) -> int {
    if v >= 0 {
        v
    } else {
        -v
    }
}

/// Hex distance between the cube points `(ax, ay, az)` and `(bx, by, bz)`:
/// half the one-norm of their difference. For sum-zero points the sum of
/// the three absolute differences is always even, so the halving is exact.
pub open spec fn cube_distance_s(ax: int, ay: int, az: int, bx: int, by: int, bz: int) -> int {
    (abs_i(ax - bx) + abs_i(ay - by) + abs_i(az - bz)) / 2
}

/// A sum-zero difference has an even one-norm: half of it is a whole number
/// of grid steps.
pub proof fn lemma_abs_sum_even(dx: int, dy: int, dz: int)
    requires
        dx + dy + dz == 0,
    ensures
        (abs_i(dx) + abs_i(dy) + abs_i(dz)) % 2 == 0,
        abs_i(dx) + abs_i(dy) + abs_i(dz) == 2 * ((abs_i(dx) + abs_i(dy) + abs_i(dz)) / 2),
{
    let s = abs_i(dx) + abs_i(dy) + abs_i(dz);
    let k = (if dx < 0 { -dx } else { 0 }) + (if dy < 0 { -dy } else { 0 }) + (if dz < 0 {
        -dz
    } else {
        0
    });
    assert(s == s - (dx + dy + dz) == 2 * k);
    assert((2 * k) % 2 == 0 && (2 * k) / 2 == k) by (nonlinear_arith);
}

/// Hex distance between two valid cube points. Zero exactly when the points
/// coincide.
pub fn cube_distance(hex: Cube, other: Cube) -> (d: i64)
    requires
        hex.wf(),
        other.wf(),
        abs_i(hex.x - other.x) + abs_i(hex.y - other.y) + abs_i(hex.z - other.z) <= i64::MAX,
    ensures
        d == cube_distance_s(
            hex.x as int,
            hex.y as int,
            hex.z as int,
            other.x as int,
            other.y as int,
            other.z as int,
        ),
        d >= 0,
        d == 0 <==> hex == other,
{
    let dx = hex.x - other.x;
    let dy = hex.y - other.y;
    let dz = hex.z - other.z;
    let adx = if dx >= 0 { dx } else { -dx };
    let ady = if dy >= 0 { dy } else { -dy };
    let adz = if dz >= 0 { dz } else { -dz };
    proof {
        lemma_abs_sum_even(dx as int, dy as int, dz as int);
    }
    (adx + ady + adz) / 2
}

/// Distance symmetry, and the distance from a point to itself is zero.
pub proof fn lemma_distance_symmetry(ax: int, ay: int, az: int, bx: int, by: int, bz: int)
    ensures
        cube_distance_s(ax, ay, az, bx, by, bz) == cube_distance_s(bx, by, bz, ax, ay, az),
        cube_distance_s(ax, ay, az, ax, ay, az) == 0,
{
}

/// The distance between two valid cube points is zero exactly when the
/// points coincide.
pub proof fn lemma_distance_zero(ax: int, ay: int, az: int, bx: int, by: int, bz: int)
    requires
        ax + ay + az == 0,
        bx + by + bz == 0,
    ensures
        cube_distance_s(ax, ay, az, bx, by, bz) == 0 <==> (ax == bx && ay == by && az == bz),
{
    lemma_abs_sum_even(ax - bx, ay - by, az - bz);
}

/// Triangle inequality: going from `a` to `c` is never longer than passing
/// through `b`, for any three sum-zero cube points.
pub proof fn lemma_distance_triangle(
    ax: int, ay: int, az: int,
    bx: int, by: int, bz: int,
    cx: int, cy: int, cz: int,
)
    requires
        ax + ay + az == 0,
        bx + by + bz == 0,
        cx + cy + cz == 0,
    ensures
        cube_distance_s(ax, ay, az, cx, cy, cz) <= cube_distance_s(ax, ay, az, bx, by, bz)
            + cube_distance_s(bx, by, bz, cx, cy, cz),
{
    let sab = abs_i(ax - bx) + abs_i(ay - by) + abs_i(az - bz);
    let sbc = abs_i(bx - cx) + abs_i(by - cy) + abs_i(bz - cz);
    let sac = abs_i(ax - cx) + abs_i(ay - cy) + abs_i(az - cz);
    lemma_abs_sum_even(ax - bx, ay - by, az - bz);
    lemma_abs_sum_even(bx - cx, by - cy, bz - cz);
    lemma_abs_sum_even(ax - cx, ay - cy, az - cz);
    assert(sac <= sab + sbc);
    assert(2 * (sac / 2) <= 2 * (sab / 2) + 2 * (sbc / 2));
}

} // verus!
