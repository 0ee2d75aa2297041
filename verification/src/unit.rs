//! Whole-group transforms: rotating or shifting every member of a [`Unit`]
//! of cube cells, the rotation taken about the unit's pivot.

use vstd::prelude::*;
use crate::dirs::cube_neighbor_s;
use crate::line::cube_is;
use crate::rotate::lemma_rotate_about_wf;
use crate::rotate::rotate_about_s;
use crate::cube_neighbor;
use crate::cube_rotate;
use crate::Cube;
use crate::Unit;

verus! {

/// A mathematical integer that an `i64` can hold.
pub open spec fn in_i64(v: int) -> bool {
    i64::MIN <= v <= i64::MAX
}

/// One 60-degree rotation of the cube point `h` about the pivot `p`.
pub open spec fn rotate_about_c(h: Cube, p: Cube, clockwise: bool) -> (int, int, int) {
    rotate_about_s(
        h.x as int, h.y as int, h.z as int,
        p.x as int, p.y as int, p.z as int,
        clockwise,
    )
}

/// The machine-width conditions under which rotating `h` about `p` can be
/// computed in `i64` arithmetic: the pivot-relative offsets and the final
/// components must all fit.
pub open spec fn rotate_about_fits(h: Cube, p: Cube, clockwise: bool) -> bool {
    &&& p.x > i64::MIN && p.y > i64::MIN && p.z > i64::MIN
    &&& i64::MIN < h.x - p.x <= i64::MAX
    &&& i64::MIN < h.y - p.y <= i64::MAX
    &&& i64::MIN < h.z - p.z <= i64::MAX
    &&& ({
        let (rx, ry, rz) = rotate_about_c(h, p, clockwise);
        in_i64(rx) && in_i64(ry) && in_i64(rz)
    })
}

/// Rotate every member of the unit 60 degrees about the unit's pivot. The
/// pivot itself is unchanged, member order is kept, and each valid member
/// of a unit with a valid pivot stays valid.
pub fn unit_rotate(u: Unit, clockwise: bool) -> (v: Unit)
    requires
        forall|i: int|
            0 <= i < u.members@.len() ==> rotate_about_fits(
                #[trigger] u.members@[i],
                u.pivot,
                clockwise,
            ),
    ensures
        v.pivot == u.pivot,
        v.members@.len() == u.members@.len(),
        forall|i: int|
            0 <= i < u.members@.len() ==> cube_is(
                #[trigger] v.members@[i],
                rotate_about_c(u.members@[i], u.pivot, clockwise),
            ),
        forall|i: int|
            0 <= i < u.members@.len() ==> ((#[trigger] u.members@[i]).wf() && u.pivot.wf()
                ==> v.members@[i].wf()),
{
    let pivot: Cube = u.pivot;
    let mut members: Vec<Cube> = Vec::new();
    let mut k: usize = 0;
    let n: usize = u.members.len();
    while k < n
        invariant
            n == u.members@.len(),
            0 <= k <= n,
            pivot == u.pivot,
            forall|i: int|
                0 <= i < u.members@.len() ==> rotate_about_fits(
                    #[trigger] u.members@[i],
                    u.pivot,
                    clockwise,
                ),
            members@.len() == k,
            forall|j: int|
                0 <= j < k ==> cube_is(
                    #[trigger] members@[j],
                    rotate_about_c(u.members@[j], u.pivot, clockwise),
                ),
            forall|j: int|
                0 <= j < k ==> ((#[trigger] u.members@[j]).wf() && u.pivot.wf()
                    ==> members@[j].wf()),
        decreases n - k,
    {
        let h: Cube = u.members[k];
        let t: Cube = h.sub(pivot);
        let rot: Cube = cube_rotate(t, clockwise);
        let res: Cube = rot.add(pivot);
        proof {
            if h.wf() && pivot.wf() {
                lemma_rotate_about_wf(
                    h.x as int, h.y as int, h.z as int,
                    pivot.x as int, pivot.y as int, pivot.z as int,
                    clockwise,
                );
            }
        }
        members.push(res);
        k = k + 1;
    }
    Unit { members, pivot }
}

/// The machine-width condition under which a member can take a unit step:
/// strict interior of the `i64` range, so adding any component of a unit
/// direction fits.
pub open spec fn step_fits(h: Cube) -> bool {
    &&& i64::MIN < h.x < i64::MAX
    &&& i64::MIN < h.y < i64::MAX
    &&& i64::MIN < h.z < i64::MAX
}

/// Shift every member of the unit one cell in direction `direction` (any
/// signed index, normalized mod 6). The pivot is unchanged, member order is
/// kept, and valid members stay valid.
pub fn unit_neighbor(u: Unit, direction: i8) -> (v: Unit)
    requires
        forall|i: int| 0 <= i < u.members@.len() ==> step_fits(#[trigger] u.members@[i]),
    ensures
        v.pivot == u.pivot,
        v.members@.len() == u.members@.len(),
        forall|i: int|
            0 <= i < u.members@.len() ==> cube_is(
                #[trigger] v.members@[i],
                cube_neighbor_s(
                    u.members@[i].x as int,
                    u.members@[i].y as int,
                    u.members@[i].z as int,
                    direction as int,
                ),
            ),
        forall|i: int|
            0 <= i < u.members@.len() ==> ((#[trigger] u.members@[i]).wf()
                ==> v.members@[i].wf()),
{
    let pivot: Cube = u.pivot;
    let mut members: Vec<Cube> = Vec::new();
    let mut k: usize = 0;
    let n: usize = u.members.len();
    while k < n
        invariant
            n == u.members@.len(),
            0 <= k <= n,
            pivot == u.pivot,
            forall|i: int| 0 <= i < u.members@.len() ==> step_fits(#[trigger] u.members@[i]),
            members@.len() == k,
            forall|j: int|
                0 <= j < k ==> cube_is(
                    #[trigger] members@[j],
                    cube_neighbor_s(
                        u.members@[j].x as int,
                        u.members@[j].y as int,
                        u.members@[j].z as int,
                        direction as int,
                    ),
                ),
            forall|j: int|
                0 <= j < k ==> ((#[trigger] u.members@[j]).wf() ==> members@[j].wf()),
        decreases n - k,
    {
        let h: Cube = u.members[k];
        let res: Cube = cube_neighbor(h, direction);
        members.push(res);
        k = k + 1;
    }
    Unit { members, pivot }
}

} // verus!
