use hexgrid::{
    cube_lerp_frac, cube_linedraw, cube_rotate, cube_round_frac, unit_neighbor, unit_rotate, Cube,
    Unit,
};

fn cube(x: i64, y: i64, z: i64) -> Cube {
    Cube { x, y, z }
}

#[test]
fn rotate_formulas() {
    let h = cube(3, -3, 0);
    let cw = cube_rotate(h, true);
    assert_eq!((cw.x, cw.y, cw.z), (0, -3, 3));
    let ccw = cube_rotate(h, false);
    assert_eq!((ccw.x, ccw.y, ccw.z), (3, 0, -3));
    assert_eq!(cw.x + cw.y + cw.z, 0);
    assert_eq!(ccw.x + ccw.y + ccw.z, 0);
}

#[test]
fn rotate_six_times_is_identity() {
    for &clockwise in &[true, false] {
        let start = cube(7, -11, 4);
        let mut h = start;
        for _ in 0..6 {
            h = cube_rotate(h, clockwise);
        }
        assert_eq!((h.x, h.y, h.z), (start.x, start.y, start.z));
    }
}

#[test]
fn rotate_about_pivot_six_times_is_identity() {
    for &clockwise in &[true, false] {
        let start = vec![cube(2, -5, 3), cube(-1, 1, 0), cube(2, -5, 3)];
        let pivot = cube(4, -4, 0);
        let mut u = Unit { members: start.clone(), pivot };
        for _ in 0..6 {
            u = unit_rotate(u, clockwise);
        }
        assert_eq!(u.members.len(), start.len());
        for (m, s) in u.members.iter().zip(start.iter()) {
            assert_eq!((m.x, m.y, m.z), (s.x, s.y, s.z));
        }
        assert_eq!((u.pivot.x, u.pivot.y, u.pivot.z), (pivot.x, pivot.y, pivot.z));
    }
}

#[test]
fn unit_rotate_once_about_pivot() {
    let u = Unit { members: vec![cube(2, -2, 0)], pivot: cube(1, -1, 0) };
    let v = unit_rotate(u, true);
    // Offset from the pivot is (1,-1,0); clockwise it becomes (0,-1,1).
    assert_eq!((v.members[0].x, v.members[0].y, v.members[0].z), (1, -2, 1));
    assert_eq!(v.members[0].x + v.members[0].y + v.members[0].z, 0);
}

#[test]
fn unit_neighbor_shifts_members() {
    let u = Unit { members: vec![cube(0, 0, 0), cube(1, -1, 0)], pivot: cube(0, 0, 0) };
    let v = unit_neighbor(u, 2);
    assert_eq!(v.members.len(), 2);
    assert_eq!((v.members[0].x, v.members[0].y, v.members[0].z), (0, 1, -1));
    assert_eq!((v.members[1].x, v.members[1].y, v.members[1].z), (1, 0, -1));
    assert_eq!((v.pivot.x, v.pivot.y, v.pivot.z), (0, 0, 0));
}

#[test]
fn lerp_frac_endpoints_round_to_endpoints() {
    let a = cube(4, -9, 5);
    let b = cube(-3, 1, 2);
    let n = 6; // any positive sample count works for the endpoint law
    let s0 = cube_lerp_frac(a, b, 0, n);
    assert_eq!(s0, (a.x * n, a.y * n, a.z * n));
    let r0 = cube_round_frac(s0.0, s0.1, s0.2, n);
    assert_eq!((r0.x, r0.y, r0.z), (a.x, a.y, a.z));
    let sn = cube_lerp_frac(a, b, n, n);
    assert_eq!(sn, (b.x * n, b.y * n, b.z * n));
    let rn = cube_round_frac(sn.0, sn.1, sn.2, n);
    assert_eq!((rn.x, rn.y, rn.z), (b.x, b.y, b.z));
}

#[test]
fn linedraw_example() {
    let a = cube(0, 0, 0);
    let b = cube(3, -3, 0);
    let line = cube_linedraw(a, b);
    assert_eq!(line.len(), 3);
    let want = [(0, 0, 0), (1, -1, 0), (2, -2, 0)];
    for (c, w) in line.iter().zip(want.iter()) {
        assert_eq!((c.x, c.y, c.z), *w);
        assert_eq!(c.x + c.y + c.z, 0);
    }
}

#[test]
fn linedraw_degenerate_is_empty() {
    let a = cube(2, -3, 1);
    let line = cube_linedraw(a, a);
    assert!(line.is_empty());
}

#[test]
fn linedraw_starts_at_origin_point() {
    let a = cube(-2, 5, -3);
    let b = cube(4, -1, -3);
    let line = cube_linedraw(a, b);
    assert_eq!(line.len(), 6);
    assert_eq!((line[0].x, line[0].y, line[0].z), (a.x, a.y, a.z));
    for c in &line {
        assert_eq!(c.x + c.y + c.z, 0);
    }
}

#[test]
fn linedraw_through_edge_midpoint() {
    // Halfway along this segment lies on an edge midpoint (1, -0.5, -0.5):
    // y and z tie, so z is the recomputed axis and the sample is (1, -1, 0).
    let line = cube_linedraw(cube(0, 0, 0), cube(2, -1, -1));
    assert_eq!(line.len(), 2);
    assert_eq!((line[0].x, line[0].y, line[0].z), (0, 0, 0));
    assert_eq!((line[1].x, line[1].y, line[1].z), (1, -1, 0));
}

#[test]
fn round_frac_restores_invariant() {
    // (1.4, 0.3, -1.7) rounds naively to (1, 0, -2), which sums to -1;
    // x has the strictly largest residual and is recomputed from the
    // other two.
    let r = cube_round_frac(14, 3, -17, 10);
    assert_eq!((r.x, r.y, r.z), (2, 0, -2));
    assert_eq!(r.x + r.y + r.z, 0);
}

#[test]
fn round_frac_tie_breaks_in_axis_order() {
    // (0.5, 0.5, -1): x and y tie, so x's branch is skipped and y is
    // recomputed from x and z.
    let r = cube_round_frac(1, 1, -2, 2);
    assert_eq!((r.x, r.y, r.z), (1, 0, -1));
    assert_eq!(r.x + r.y + r.z, 0);
}

#[test]
fn round_frac_halves_away_from_zero() {
    // -1.5 rounds to -2, +1.5 rounds to 2; z keeps the exact 0 and is
    // recomputed last, staying consistent.
    let r = cube_round_frac(-3, 3, 0, 2);
    assert_eq!((r.x, r.y, r.z), (-2, 2, 0));
}
