//! The six canonical unit steps of the hex grid, per representation, and the
//! neighbor lookups built on them.
//!
//! A direction is any signed index; it is normalized into `0..6` by
//! wraparound (`((d % 6) + 6) % 6` in truncating machine arithmetic, which is
//! the Euclidean `d % 6`), so negative indices select the same cyclic
//! directions. After normalization the table lookup is total: the
//! out-of-range arm is proved unreachable rather than yielding a zero step.

use vstd::prelude::*;
use vstd::pervasive::unreached;
use crate::convert::cube_to_axial_s;
use crate::convert::cube_to_offset_s;
use crate::convert::offset_to_cube_s;
use crate::Cube;
use crate::Hex;
use crate::OddR;

verus! {

/// Normalized direction index: the Euclidean remainder mod 6, in `0..6`.
pub open spec fn dir_index(d: int) -> int {
    d % 6
}

/// Cube unit step for a normalized direction index in `0..6`.
pub open spec fn cube_dir_s(i: int) -> (int, int, int) {
    if i == 0 {
        (1, -1, 0)
    } else if i == 1 {
        (1, 0, -1)
    } else if i == 2 {
        (0, 1, -1)
    } else if i == 3 {
        (-1, 1, 0)
    } else if i == 4 {
        (-1, 0, 1)
    } else {
        (0, -1, 1)
    }
}

/// Axial unit step for a normalized direction index in `0..6`; the axial
/// projection `(x, z)` of [`cube_dir_s`].
pub open spec fn hex_dir_s(i: int) -> (int, int) {
    if i == 0 {
        (1, 0)
    } else if i == 1 {
        (1, -1)
    } else if i == 2 {
        (0, -1)
    } else if i == 3 {
        (-1, 0)
    } else if i == 4 {
        (-1, 1)
    } else {
        (0, 1)
    }
}

/// Odd-row offset unit step for a row parity (0 even, 1 odd) and a
/// normalized direction index in `0..6`.
pub open spec fn offset_dir_s(parity: int, i: int) -> (int, int) {
    if parity == 0 {
        if i == 0 {
            (1, 0)
        } else if i == 1 {
            (0, -1)
        } else if i == 2 {
            (-1, -1)
        } else if i == 3 {
            (-1, 0)
        } else if i == 4 {
            (-1, 1)
        } else {
            (0, 1)
        }
    } else {
        if i == 0 {
            (1, 0)
        } else if i == 1 {
            (1, -1)
        } else if i == 2 {
            (0, -1)
        } else if i == 3 {
            (-1, 0)
        } else if i == 4 {
            (0, 1)
        } else {
            (1, 1)
        }
    }
}

/// Cube point one unit step from `(x, y, z)` in direction `d`.
pub open spec fn cube_neighbor_s(x: int, y: int, z: int, d: int) -> (int, int, int) {
    let (dx, dy, dz) = cube_dir_s(dir_index(d));
    (x + dx, y + dy, z + dz)
}

/// Axial point one unit step from `(q, r)` in direction `d`.
pub open spec fn hex_neighbor_s(q: int, r: int, d: int) -> (int, int) {
    let (dq, dr) = hex_dir_s(dir_index(d));
    (q + dq, r + dr)
}

/// Offset point one unit step from `(col, row)` in direction `d`; the step
/// table is chosen by the parity of `row`.
pub open spec fn offset_neighbor_s(col: int, row: int, d: int) -> (int, int) {
    let (dc, dr) = offset_dir_s(row % 2, dir_index(d));
    (col + dc, row + dr)
}

/// Normalize a direction index into `0..6` by cyclic wraparound, so that
/// negative indices resolve to the equivalent direction.
fn norm_dir(direction: i8) -> (i: u8)
    ensures
        i as int == dir_index(direction as int),
        i < 6,
{
    let wide: i32 = direction as i32 + 768;
    proof {
        vstd::arithmetic::div_mod::lemma_mod_multiples_vanish(
            128,
            direction as int,
            6,
        );
        assert(wide as int % 6 == direction as int % 6);
    }
    (wide % 6) as u8
}

/// Cube unit step for direction `d`, any signed index, normalized mod 6.
/// The residual out-of-range arm is proved unreachable: no zero-vector
/// fallback exists.
pub fn cube_direction(direction: i8) -> (r: Cube)
    ensures
        (r.x as int, r.y as int, r.z as int) == cube_dir_s(dir_index(direction as int)),
        r.wf(),
{
    let i = norm_dir(direction);
    match i {
        0 => Cube { x: 1, y: -1, z: 0 },
        1 => Cube { x: 1, y: 0, z: -1 },
        2 => Cube { x: 0, y: 1, z: -1 },
        3 => Cube { x: -1, y: 1, z: 0 },
        4 => Cube { x: -1, y: 0, z: 1 },
        5 => Cube { x: 0, y: -1, z: 1 },
        _ => unreached(),
    }
}

/// The cube cell adjacent to `hex` in direction `direction`.
pub fn cube_neighbor(hex: Cube, direction: i8) -> (r: Cube)
    requires
        i64::MIN < hex.x < i64::MAX,
        i64::MIN < hex.y < i64::MAX,
        i64::MIN < hex.z < i64::MAX,
    ensures
        (r.x as int, r.y as int, r.z as int) == cube_neighbor_s(
            hex.x as int,
            hex.y as int,
            hex.z as int,
            direction as int,
        ),
        hex.wf() ==> r.wf(),
{
    hex.add(cube_direction(direction))
}

/// Axial unit step for direction `d`, any signed index, normalized mod 6.
pub fn hex_direction(direction: i8) -> (r: Hex)
    ensures
        (r.q as int, r.r as int) == hex_dir_s(dir_index(direction as int)),
{
    let i = norm_dir(direction);
    match i {
        0 => Hex { q: 1, r: 0 },
        1 => Hex { q: 1, r: -1 },
        2 => Hex { q: 0, r: -1 },
        3 => Hex { q: -1, r: 0 },
        4 => Hex { q: -1, r: 1 },
        5 => Hex { q: 0, r: 1 },
        _ => unreached(),
    }
}

/// The axial cell adjacent to `hex` in direction `direction`.
pub fn hex_neighbor(hex: Hex, direction: i8) -> (r: Hex)
    requires
        i64::MIN < hex.q < i64::MAX,
        i64::MIN < hex.r < i64::MAX,
    ensures
        (r.q as int, r.r as int) == hex_neighbor_s(
            hex.q as int,
            hex.r as int,
            direction as int,
        ),
{
    hex.add(hex_direction(direction))
}

/// Offset unit step for a row parity (0 even, 1 odd) and direction `d`,
/// any signed index, normalized mod 6.
pub fn offset_direction(parity: i64, direction: i8) -> (r: OddR)
    requires
        parity == 0 || parity == 1,
    ensures
        (r.col as int, r.row as int) == offset_dir_s(parity as int, dir_index(direction as int)),
{
    let i = norm_dir(direction);
    if parity == 0 {
        match i {
            0 => OddR { col: 1, row: 0 },
            1 => OddR { col: 0, row: -1 },
            2 => OddR { col: -1, row: -1 },
            3 => OddR { col: -1, row: 0 },
            4 => OddR { col: -1, row: 1 },
            5 => OddR { col: 0, row: 1 },
            _ => unreached(),
        }
    } else {
        match i {
            0 => OddR { col: 1, row: 0 },
            1 => OddR { col: 1, row: -1 },
            2 => OddR { col: 0, row: -1 },
            3 => OddR { col: -1, row: 0 },
            4 => OddR { col: 0, row: 1 },
            5 => OddR { col: 1, row: 1 },
            _ => unreached(),
        }
    }
}

/// The offset cell adjacent to `hex` in direction `direction`, using the
/// step table of `hex`'s own row parity.
pub fn offset_neighbor(hex: OddR, direction: i8) -> (r: OddR)
    requires
        i64::MIN < hex.col < i64::MAX,
        i64::MIN < hex.row < i64::MAX,
    ensures
        (r.col as int, r.row as int) == offset_neighbor_s(
            hex.col as int,
            hex.row as int,
            direction as int,
        ),
{
    let row = hex.row;
    proof {
        assert(row & 1i64 == row % 2) by (bit_vector);
    }
    let parity: i64 = row & 1i64;
    offset_direction(parity, direction).add(hex)
}

/// Neighbor consistency: stepping a valid cube point and projecting to
/// axial agrees with projecting first and stepping with the axial table,
/// for every direction index.
pub proof fn lemma_neighbor_consistency(x: int, y: int, z: int, d: int)
    requires
        x + y + z == 0,
    ensures
        ({
            let (nx, ny, nz) = cube_neighbor_s(x, y, z, d);
            cube_to_axial_s(nx, ny, nz) == hex_neighbor_s(x, z, d)
        }),
{
    assert(0 <= d % 6 < 6);
}

/// Offset neighbor parity: stepping an offset point with its parity table
/// agrees with converting to cube space, stepping there, and converting
/// back, for every `(col, row)` and every direction index.
pub proof fn lemma_offset_neighbor_consistency(col: int, row: int, d: int)
    ensures
        ({
            let (x, y, z) = offset_to_cube_s(col, row);
            let (nx, ny, nz) = cube_neighbor_s(x, y, z, d);
            cube_to_offset_s(nx, ny, nz) == offset_neighbor_s(col, row, d)
        }),
{
    let i = dir_index(d);
    assert(0 <= i < 6);
    let p = row % 2;
    vstd::arithmetic::div_mod::lemma_fundamental_div_mod(row, 2);
    let k = row / 2;
    assert(row == 2 * k + p);
    assert((2 * k) / 2 == k && (2 * k + 1) / 2 == k && (2 * k + 2) / 2 == k + 1 && (2 * k - 1)
        / 2 == k - 1) by (nonlinear_arith);
}

} // verus!
