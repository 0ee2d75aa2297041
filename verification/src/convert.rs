//! Lossless conversions between the axial, cube, and odd-row offset
//! encodings of a hex-lattice point.

use vstd::prelude::*;
use crate::Cube;
use crate::Hex;
use crate::OddR;

verus! {

/// Cube point equivalent to the axial point `(q, r)`.
pub open spec fn axial_to_cube_s(q: int, r: int) -> (int, int, int) {
    (q, -q - r, r)
}

/// Axial point equivalent to the cube point `(x, y, z)`: `y` is redundant
/// and is discarded.
pub open spec fn cube_to_axial_s(x: int, y: int, z: int) -> (int, int) {
    (x, z)
}

/// Column of the odd-row offset point for the cube point with the given
/// `x` and `z`. Spec `/` is Euclidean, so `z / 2` is the floor of the half,
/// which is what the odd-row shove `(z - (z & 1)) / 2` computes.
pub open spec fn offset_col(x: int, z: int) -> int {
    x + z / 2
}

/// Odd-row offset point of the cube point `(x, y, z)`.
pub open spec fn cube_to_offset_s(x: int, y: int, z: int) -> (int, int) {
    (offset_col(x, z), z)
}

/// Cube point of the odd-row offset point `(col, row)`.
pub open spec fn offset_to_cube_s(col: int, row: int) -> (int, int, int) {
    let x = col - row / 2;
    (x, -x - row, row)
}

/// Convert an axial point to the equivalent cube point.
pub fn hex_to_cube(h: Hex) -> (r: Cube)
    requires
        i64::MIN <= -h.q - h.r <= i64::MAX,
    ensures
        (r.x as int, r.y as int, r.z as int) == axial_to_cube_s(h.q as int, h.r as int),
        r.wf(),
{
    let y128: i128 = -(h.q as i128) - (h.r as i128);
    Cube { x: h.q, y: y128 as i64, z: h.r }
}

/// Convert a cube point to the equivalent axial point.
pub fn cube_to_hex(h: Cube) -> (r: Hex)
    ensures
        (r.q as int, r.r as int) == cube_to_axial_s(h.x as int, h.y as int, h.z as int),
{
    Hex { q: h.x, r: h.z }
}

/// Convert a cube point to the equivalent odd-row offset point.
pub fn cube_to_offset(h: Cube) -> (r: OddR)
    requires
        i64::MIN <= offset_col(h.x as int, h.z as int) <= i64::MAX,
    ensures
        (r.col as int, r.row as int) == cube_to_offset_s(h.x as int, h.y as int, h.z as int),
{
    let z = h.z;
    proof {
        assert(z >> 1i64 == z / 2) by (bit_vector);
    }
    let half: i64 = z >> 1i64;
    OddR { col: h.x + half, row: z }
}

/// Convert an odd-row offset point to the equivalent cube point.
pub fn offset_to_cube(h: OddR) -> (r: Cube)
    requires
        i64::MIN <= h.col - h.row as int / 2 <= i64::MAX,
        i64::MIN <= -(h.col - h.row as int / 2) - h.row <= i64::MAX,
    ensures
        (r.x as int, r.y as int, r.z as int) == offset_to_cube_s(h.col as int, h.row as int),
        r.wf(),
{
    let row = h.row;
    proof {
        assert(row >> 1i64 == row / 2) by (bit_vector);
    }
    let half: i64 = row >> 1i64;
    let x: i64 = h.col - half;
    let y128: i128 = -(x as i128) - (row as i128);
    Cube { x, y: y128 as i64, z: row }
}

/// Round trip: converting an axial point to cube and back returns it
/// unchanged, for every integer `(q, r)`.
pub proof fn lemma_axial_round_trip(q: int, r: int)
    ensures
        ({
            let (x, y, z) = axial_to_cube_s(q, r);
            cube_to_axial_s(x, y, z) == (q, r)
        }),
{
}

/// Round trip: converting a valid cube point to axial and back returns it
/// unchanged, for every cube point with `x + y + z == 0`.
pub proof fn lemma_cube_axial_round_trip(x: int, y: int, z: int)
    requires
        x + y + z == 0,
    ensures
        ({
            let (q, r) = cube_to_axial_s(x, y, z);
            axial_to_cube_s(q, r) == (x, y, z)
        }),
{
}

/// Round trip: converting an offset point to cube and back returns it
/// unchanged, for every integer `(col, row)`.
pub proof fn lemma_offset_round_trip(col: int, row: int)
    ensures
        ({
            let (x, y, z) = offset_to_cube_s(col, row);
            cube_to_offset_s(x, y, z) == (col, row)
        }),
{
}

/// Round trip: converting a valid cube point to offset and back returns it
/// unchanged, for every cube point with `x + y + z == 0`.
pub proof fn lemma_cube_offset_round_trip(x: int, y: int, z: int)
    requires
        x + y + z == 0,
    ensures
        ({
            let (col, row) = cube_to_offset_s(x, y, z);
            offset_to_cube_s(col, row) == (x, y, z)
        }),
{
}

} // verus!
