//! 60-degree rotation of a cube point, about the origin or about a pivot.

use vstd::prelude::*;
use crate::Cube;

verus! {

/// One 60-degree rotation of `(x, y, z)` about the origin in cube space:
/// clockwise `(x, y, z) -> (-z, -x, -y)`, counter-clockwise
/// `(x, y, z) -> (-y, -z, -x)`.
pub open spec fn rotate_s(x: int, y: int, z: int, clockwise: bool) -> (int, int, int) {
    if clockwise {
        (-z, -x, -y)
    } else {
        (-y, -z, -x)
    }
}

/// One 60-degree rotation of `(x, y, z)` about the pivot `(px, py, pz)`:
/// translate the pivot to the origin, rotate, translate back.
pub open spec fn rotate_about_s(
    x: int,
    y: int,
    z: int,
    px: int,
    py: int,
    pz: int,
    clockwise: bool,
) -> (int, int, int) {
    let (rx, ry, rz) = rotate_s(x - px, y - py, z - pz, clockwise);
    (rx + px, ry + py, rz + pz)
}

/// `n` successive rotations of `(x, y, z)` about the pivot, all in the same
/// sense.
pub open spec fn rotate_about_iter_s(
    x: int,
    y: int,
    z: int,
    px: int,
    py: int,
    pz: int,
    clockwise: bool,
    n: nat,
) -> (int, int, int)
    decreases n,
{
    if n == 0 {
        (x, y, z)
    } else {
        let (rx, ry, rz) = rotate_about_iter_s(x, y, z, px, py, pz, clockwise, (n - 1) as nat);
        rotate_about_s(rx, ry, rz, px, py, pz, clockwise)
    }
}

/// Rotate a cube point 60 degrees about the origin.
pub fn cube_rotate(hex: Cube, clockwise: bool) -> (r: Cube)
    requires
        hex.x > i64::MIN,
        hex.y > i64::MIN,
        hex.z > i64::MIN,
    ensures
        (r.x as int, r.y as int, r.z as int) == rotate_s(
            hex.x as int,
            hex.y as int,
            hex.z as int,
            clockwise,
        ),
        hex.wf() ==> r.wf(),
{
    if clockwise {
        Cube { x: -hex.z, y: -hex.x, z: -hex.y }
    } else {
        Cube { x: -hex.y, y: -hex.z, z: -hex.x }
    }
}

/// Rotation closure: six successive 60-degree rotations about any pivot, in
/// either fixed sense, return the original point — the rotations form a
/// cyclic group of order 6.
pub proof fn lemma_rotate_six(
    x: int,
    y: int,
    z: int,
    px: int,
    py: int,
    pz: int,
    clockwise: bool,
)
    ensures
        rotate_about_iter_s(x, y, z, px, py, pz, clockwise, 6) == (x, y, z),
{
    reveal_with_fuel(rotate_about_iter_s, 7);
}

/// Rotation preserves the cube invariant: the image of a sum-zero point
/// about a sum-zero pivot sums to zero.
pub proof fn lemma_rotate_about_wf(
    x: int,
    y: int,
    z: int,
    px: int,
    py: int,
    pz: int,
    clockwise: bool,
)
    requires
        x + y + z == 0,
        px + py + pz == 0,
    ensures
        ({
            let (rx, ry, rz) = rotate_about_s(x, y, z, px, py, pz, clockwise);
            rx + ry + rz == 0
        }),
{
}

} // verus!
