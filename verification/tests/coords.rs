use hexgrid::{
    cube_direction, cube_distance, cube_neighbor, cube_to_hex, cube_to_offset, hex_direction,
    hex_neighbor, hex_to_cube, offset_direction, offset_neighbor, offset_to_cube, Cube, Hex, OddR,
};

fn cube(x: i64, y: i64, z: i64) -> Cube {
    Cube { x, y, z }
}

#[test]
fn axial_cube_round_trip() {
    for &(q, r) in &[(0i64, 0i64), (3, -2), (-7, 5), (1000, -1000), (-1, -1)] {
        let c = hex_to_cube(Hex { q, r });
        assert_eq!(c.x + c.y + c.z, 0);
        let h = cube_to_hex(c);
        assert_eq!((h.q, h.r), (q, r));
    }
}

#[test]
fn offset_cube_round_trip() {
    for &(col, row) in &[
        (0i64, 0i64),
        (1, 1),
        (-1, -1),
        (5, -3),
        (-4, 7),
        (0, -1),
        (123, -456),
    ] {
        let c = offset_to_cube(OddR { col, row });
        assert_eq!(c.x + c.y + c.z, 0);
        let o = cube_to_offset(c);
        assert_eq!((o.col, o.row), (col, row));
    }
}

#[test]
fn cube_offset_round_trip() {
    for &(x, z) in &[(0i64, 0i64), (2, -3), (-2, 3), (4, 5), (-6, -7)] {
        let c = cube(x, -x - z, z);
        let o = cube_to_offset(c);
        let back = offset_to_cube(o);
        assert_eq!((back.x, back.y, back.z), (c.x, c.y, c.z));
    }
}

#[test]
fn offset_negative_row_uses_floor_division() {
    // row -3 is odd: col 0, row -3 maps to x = 0 - (-2) = 2.
    let c = offset_to_cube(OddR { col: 0, row: -3 });
    assert_eq!((c.x, c.y, c.z), (2, 1, -3));
    let o = cube_to_offset(c);
    assert_eq!((o.col, o.row), (0, -3));
}

#[test]
fn direction_tables() {
    let want = [
        (1, -1, 0),
        (1, 0, -1),
        (0, 1, -1),
        (-1, 1, 0),
        (-1, 0, 1),
        (0, -1, 1),
    ];
    for d in 0..6i8 {
        let c = cube_direction(d);
        assert_eq!((c.x, c.y, c.z), want[d as usize]);
        assert_eq!(c.x + c.y + c.z, 0);
        let h = hex_direction(d);
        assert_eq!((h.q, h.r), (c.x, c.z));
    }
}

#[test]
fn direction_wraparound() {
    for d in -13..13i8 {
        let norm = ((d % 6) + 6) % 6;
        let c = cube_direction(d);
        let cn = cube_direction(norm);
        assert_eq!((c.x, c.y, c.z), (cn.x, cn.y, cn.z));
        let h = hex_direction(d);
        let hn = hex_direction(norm);
        assert_eq!((h.q, h.r), (hn.q, hn.r));
        let o = offset_direction(1, d);
        let on = offset_direction(1, norm);
        assert_eq!((o.col, o.row), (on.col, on.row));
    }
}

#[test]
fn neighbor_consistency_cube_vs_axial() {
    let h = cube(4, -9, 5);
    for d in -6..12i8 {
        let via_cube = cube_to_hex(cube_neighbor(h, d));
        let via_axial = hex_neighbor(cube_to_hex(h), d);
        assert_eq!((via_cube.q, via_cube.r), (via_axial.q, via_axial.r));
    }
}

#[test]
fn offset_neighbor_parity_tables() {
    // Even row: direction 2 steps up-left.
    let even = offset_neighbor(OddR { col: 5, row: 4 }, 2);
    assert_eq!((even.col, even.row), (4, 3));
    // Odd row: the same direction index keeps the column.
    let odd = offset_neighbor(OddR { col: 5, row: 3 }, 2);
    assert_eq!((odd.col, odd.row), (5, 2));
    assert_ne!((even.col - 5, even.row - 4), (odd.col - 5, odd.row - 3));
}

#[test]
fn offset_neighbor_matches_cube_route() {
    for &(col, row) in &[(0i64, 0i64), (3, 4), (3, 5), (-2, -3), (-2, -4), (7, 1)] {
        for d in -6..12i8 {
            let direct = offset_neighbor(OddR { col, row }, d);
            let via = cube_to_offset(cube_neighbor(offset_to_cube(OddR { col, row }), d));
            assert_eq!((direct.col, direct.row), (via.col, via.row));
        }
    }
}

#[test]
fn distance_examples() {
    let origin = cube(0, 0, 0);
    assert_eq!(cube_distance(origin, cube(3, -3, 0)), 3);
    assert_eq!(cube_distance(origin, cube(2, -1, -1)), 2);
    assert_eq!(cube_distance(cube(1, -4, 3), cube(1, -4, 3)), 0);
    assert_eq!(cube_distance(origin, cube_direction(4)), 1);
}

#[test]
fn distance_symmetry() {
    let a = cube(5, -2, -3);
    let b = cube(-4, 4, 0);
    assert_eq!(cube_distance(a, b), cube_distance(b, a));
    assert_eq!(cube_distance(a, a), 0);
}

#[test]
fn distance_triangle_inequality() {
    let pts = [cube(0, 0, 0), cube(3, -1, -2), cube(-5, 2, 3), cube(1, 1, -2)];
    for &a in &pts {
        for &b in &pts {
            for &c in &pts {
                assert!(cube_distance(a, c) <= cube_distance(a, b) + cube_distance(b, c));
            }
        }
    }
}

#[test]
fn vector_algebra() {
    let a = cube(1, -3, 2);
    let b = cube(-4, 1, 3);
    let s = a.add(b);
    assert_eq!((s.x, s.y, s.z), (-3, -2, 5));
    let d = a.sub(b);
    assert_eq!((d.x, d.y, d.z), (5, -4, -1));
    let n = b.neg();
    assert_eq!((n.x, n.y, n.z), (4, -1, -3));
    let h = Hex { q: 2, r: -5 }.add(Hex { q: -1, r: 1 });
    assert_eq!((h.q, h.r), (1, -4));
    let o = OddR { col: 2, row: 3 }.add(OddR { col: 4, row: -6 });
    assert_eq!((o.col, o.row), (6, -3));
}
