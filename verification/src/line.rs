//! The discretization engine: linear interpolation along a segment in cube
//! space, and the tie-breaking rounding that projects a fractional cube
//! point back onto the sum-zero integer lattice.
//!
//! Interpolated positions are held exactly, as integer numerators over the
//! common positive denominator `n` (the sample count), so the rounding
//! procedure is exact integer arithmetic throughout: no fractional position
//! is ever approximated before it is rounded.

use vstd::prelude::*;
use crate::distance::abs_i;
use crate::distance::cube_distance_s;
use crate::distance::lemma_abs_sum_even;
use crate::cube_distance;
use crate::Cube;

verus! {

/// Coordinate magnitude accepted by [`cube_linedraw`]: with endpoints in
/// this box every intermediate product of the engine fits in an `i64`.
pub const LINE_BOUND: i64 = 1073741824;

/// The integer nearest to `p / q` (for `q > 0`), halves rounded away from
/// zero.
pub open spec fn round_nearest(p: int, q: int) -> int {
    if p >= 0 {
        (2 * p + q) / (2 * q)
    } else {
        -((2 * (-p) + q) / (2 * q))
    }
}

/// Numerator over denominator `n` of the affine interpolation
/// `a + (b - a) * (i / n)`.
pub open spec fn lerp_num(a: int, b: int, i: int, n: int) -> int {
    a * n + (b - a) * i
}

/// Round the fractional cube point `(xn/q, yn/q, zn/q)` to the nearest
/// sum-zero lattice point: round each axis to its nearest integer, then
/// recompute the axis with the largest residual from the other two. The
/// residuals are compared in the `q`-scaled form `|r*q - p|`, which orders
/// them exactly as the fractional `|r - p/q|` does. Ties fall through in
/// the fixed axis order x, then y, then z.
pub open spec fn cube_round_s(xn: int, yn: int, zn: int, q: int) -> (int, int, int) {
    let rx = round_nearest(xn, q);
    let ry = round_nearest(yn, q);
    let rz = round_nearest(zn, q);
    let dx = abs_i(rx * q - xn);
    let dy = abs_i(ry * q - yn);
    let dz = abs_i(rz * q - zn);
    if dx > dy && dx > dz {
        (-ry - rz, ry, rz)
    } else if dy > dz {
        (rx, -rx - rz, rz)
    } else {
        (rx, ry, -rx - ry)
    }
}

/// Sample `i` of `n` along the segment from `a` to `b`: the interpolated
/// fractional point, rounded back onto the lattice.
pub open spec fn line_sample_s(
    ax: int, ay: int, az: int,
    bx: int, by: int, bz: int,
    i: int, n: int,
) -> (int, int, int) {
    cube_round_s(lerp_num(ax, bx, i, n), lerp_num(ay, by, i, n), lerp_num(az, bz, i, n), n)
}

/// All three coordinates of `c` lie within `bound` in magnitude.
pub open spec fn in_box(c: Cube, bound: int) -> bool {
    abs_i(c.x as int) <= bound && abs_i(c.y as int) <= bound && abs_i(c.z as int) <= bound
}

/// The machine-width conditions under which the interpolation numerator for
/// one axis can be computed in `i64` arithmetic.
pub open spec fn lerp_fits(a: int, b: int, i: int, n: int) -> bool {
    &&& i64::MIN <= b - a <= i64::MAX
    &&& abs_i(a * n) <= i64::MAX
    &&& abs_i((b - a) * i) <= i64::MAX
    &&& i64::MIN <= lerp_num(a, b, i, n) <= i64::MAX
}

/// Rounding lands within half a unit: `2 * |round_nearest(p, q) * q - p| <= q`.
pub proof fn lemma_round_close(p: int, q: int)
    requires
        q > 0,
    ensures
        2 * abs_i(round_nearest(p, q) * q - p) <= q,
{
    if p >= 0 {
        lemma_round_close_nonneg(p, q);
    } else {
        lemma_round_close_nonneg(-p, q);
        let r = (2 * (-p) + q) / (2 * q);
        assert(round_nearest(p, q) == -r);
        assert((-r) * q - p == -(r * q - (-p))) by (nonlinear_arith);
    }
}

proof fn lemma_round_close_nonneg(p: int, q: int)
    requires
        p >= 0,
        q > 0,
    ensures
        2 * abs_i(((2 * p + q) / (2 * q)) * q - p) <= q,
{
    let d = 2 * q;
    let r = (2 * p + q) / d;
    vstd::arithmetic::div_mod::lemma_fundamental_div_mod(2 * p + q, d);
    vstd::arithmetic::div_mod::lemma_mod_bound(2 * p + q, d);
    assert(2 * p + q == d * r + (2 * p + q) % d);
    assert((2 * q) * r == 2 * (r * q)) by (nonlinear_arith);
    assert(0 <= 2 * p + q - 2 * (r * q) < 2 * q);
    assert(-q <= 2 * (p - r * q) < q);
    assert(2 * (r * q - p) == -(2 * (p - r * q)));
    assert(2 * abs_i(r * q - p) <= q);
}

/// A point already on the lattice rounds to itself: `round_nearest(c*q, q) == c`.
pub proof fn lemma_round_exact(c: int, q: int)
    requires
        q > 0,
    ensures
        round_nearest(c * q, q) == c,
{
    let r = round_nearest(c * q, q);
    lemma_round_close(c * q, q);
    assert(2 * abs_i(r * q - c * q) <= q);
    assert(r != c ==> 2 * abs_i(r * q - c * q) >= 2 * q) by (nonlinear_arith)
        requires
            q > 0,
    ;
}

/// The scaled rounded value stays within `q` of the numerator, so it is
/// bounded by `|p| + q`.
proof fn lemma_round_product_bound(p: int, q: int)
    requires
        q > 0,
    ensures
        abs_i(round_nearest(p, q) * q - p) <= q,
        abs_i(round_nearest(p, q) * q) <= abs_i(p) + q,
        abs_i(round_nearest(p, q)) <= abs_i(p) + q,
{
    let r = round_nearest(p, q);
    lemma_round_close(p, q);
    assert(abs_i(r) <= abs_i(r) * q ==> abs_i(r) <= abs_i(p) + q) by {
        assert(abs_i(r * q) == abs_i(r) * q) by (nonlinear_arith)
            requires
                q > 0,
        ;
    }
    assert(abs_i(r) * 1 <= abs_i(r) * q) by (nonlinear_arith)
        requires
            q > 0,
    ;
}

/// The sum of two rounded axes fits: `|ry + rz| <= i64::MAX` whenever both
/// numerators meet the engine's width bound.
proof fn lemma_repair_fits(yn: int, zn: int, q: int)
    requires
        q > 0,
        2 * abs_i(yn) + q <= i64::MAX,
        2 * abs_i(zn) + q <= i64::MAX,
    ensures
        abs_i(round_nearest(yn, q) + round_nearest(zn, q)) <= i64::MAX,
{
    let ry = round_nearest(yn, q);
    let rz = round_nearest(zn, q);
    lemma_round_close(yn, q);
    lemma_round_close(zn, q);
    let s = ry + rz;
    assert(2 * abs_i(s * q - (yn + zn)) <= 2 * q) by {
        assert((ry + rz) * q == ry * q + rz * q) by (nonlinear_arith);
    }
    assert(2 * (abs_i(s) * q) <= 2 * abs_i(yn) + 2 * abs_i(zn) + 2 * q) by {
        assert(abs_i(s * q) == abs_i(s) * q) by (nonlinear_arith)
            requires
                q > 0,
        ;
    }
    assert(abs_i(s) * 1 <= abs_i(s) * q) by (nonlinear_arith)
        requires
            q > 0,
    ;
}

/// The rounding repair restores the cube invariant: the result of
/// [`cube_round_s`] always sums to zero.
pub proof fn lemma_cube_round_wf(xn: int, yn: int, zn: int, q: int)
    ensures
        ({
            let (x, y, z) = cube_round_s(xn, yn, zn, q);
            x + y + z == 0
        }),
{
}

/// A fractional point that is exactly a sum-zero lattice point rounds to
/// that very point.
pub proof fn lemma_round_frac_exact(x: int, y: int, z: int, q: int)
    requires
        q > 0,
        x + y + z == 0,
    ensures
        cube_round_s(x * q, y * q, z * q, q) == (x, y, z),
{
    lemma_round_exact(x, q);
    lemma_round_exact(y, q);
    lemma_round_exact(z, q);
}

/// An interpolation numerator lies between the scaled endpoints.
pub proof fn lemma_lerp_num_between(a: int, b: int, i: int, n: int)
    requires
        n > 0,
        0 <= i <= n,
    ensures
        a <= b ==> a * n <= lerp_num(a, b, i, n) <= b * n,
        b <= a ==> b * n <= lerp_num(a, b, i, n) <= a * n,
{
    assert(a <= b ==> a * n <= a * n + (b - a) * i <= b * n) by (nonlinear_arith)
        requires
            n > 0,
            0 <= i <= n,
    ;
    assert(b <= a ==> b * n <= a * n + (b - a) * i <= a * n) by (nonlinear_arith)
        requires
            n > 0,
            0 <= i <= n,
    ;
}

/// Lerp endpoints, in the engine's exact form: sample `0` of `n` is `a`
/// itself and sample `n` of `n` is `b` itself, for any sum-zero endpoints.
pub proof fn lemma_line_endpoints(
    ax: int, ay: int, az: int,
    bx: int, by: int, bz: int,
    n: int,
)
    requires
        n > 0,
        ax + ay + az == 0,
        bx + by + bz == 0,
    ensures
        line_sample_s(ax, ay, az, bx, by, bz, 0, n) == (ax, ay, az),
        line_sample_s(ax, ay, az, bx, by, bz, n, n) == (bx, by, bz),
{
    lemma_round_frac_exact(ax, ay, az, n);
    assert(lerp_num(ax, bx, n, n) == bx * n && lerp_num(ay, by, n, n) == by * n && lerp_num(
        az, bz, n, n,
    ) == bz * n) by (nonlinear_arith);
    lemma_round_frac_exact(bx, by, bz, n);
}

/// Round `p / den` to the nearest integer, halves away from zero.
fn round_half_from_zero(p: i64, den: i64) -> (r: i64)
    requires
        den > 0,
        2 * den <= i64::MAX,
        2 * abs_i(p as int) + den <= i64::MAX,
    ensures
        r as int == round_nearest(p as int, den as int),
{
    if p >= 0 {
        (2 * p + den) / (2 * den)
    } else {
        let t: i64 = (2 * (-p) + den) / (2 * den);
        -t
    }
}

/// Round the fractional cube point `(xn/den, yn/den, zn/den)` to the
/// nearest sum-zero lattice point, per [`cube_round_s`]: the axis with the
/// strictly largest residual is recomputed from the other two, ties falling
/// through in the order x, y, z.
pub fn cube_round_frac(xn: i64, yn: i64, zn: i64, den: i64) -> (r: Cube)
    requires
        den > 0,
        2 * den <= i64::MAX,
        2 * abs_i(xn as int) + den <= i64::MAX,
        2 * abs_i(yn as int) + den <= i64::MAX,
        2 * abs_i(zn as int) + den <= i64::MAX,
    ensures
        (r.x as int, r.y as int, r.z as int) == cube_round_s(
            xn as int,
            yn as int,
            zn as int,
            den as int,
        ),
        r.wf(),
{
    let rx: i64 = round_half_from_zero(xn, den);
    let ry: i64 = round_half_from_zero(yn, den);
    let rz: i64 = round_half_from_zero(zn, den);
    proof {
        lemma_round_product_bound(xn as int, den as int);
        lemma_round_product_bound(yn as int, den as int);
        lemma_round_product_bound(zn as int, den as int);
        lemma_repair_fits(xn as int, yn as int, den as int);
        lemma_repair_fits(xn as int, zn as int, den as int);
        lemma_repair_fits(yn as int, zn as int, den as int);
    }
    let tx: i64 = rx * den - xn;
    let ty: i64 = ry * den - yn;
    let tz: i64 = rz * den - zn;
    let sdx: i64 = if tx >= 0 { tx } else { -tx };
    let sdy: i64 = if ty >= 0 { ty } else { -ty };
    let sdz: i64 = if tz >= 0 { tz } else { -tz };
    if sdx > sdy && sdx > sdz {
        Cube { x: -(ry + rz), y: ry, z: rz }
    } else if sdy > sdz {
        Cube { x: rx, y: -(rx + rz), z: rz }
    } else {
        Cube { x: rx, y: ry, z: -(rx + ry) }
    }
}

/// The exact interpolation numerators of sample `i` of `n` along the
/// segment from `a` to `b`: the fractional sample is the returned triple
/// divided by `n`.
pub fn cube_lerp_frac(a: Cube, b: Cube, i: i64, n: i64) -> (r: (i64, i64, i64))
    requires
        n > 0,
        0 <= i <= n,
        lerp_fits(a.x as int, b.x as int, i as int, n as int),
        lerp_fits(a.y as int, b.y as int, i as int, n as int),
        lerp_fits(a.z as int, b.z as int, i as int, n as int),
    ensures
        r.0 as int == lerp_num(a.x as int, b.x as int, i as int, n as int),
        r.1 as int == lerp_num(a.y as int, b.y as int, i as int, n as int),
        r.2 as int == lerp_num(a.z as int, b.z as int, i as int, n as int),
{
    let xn: i64 = a.x * n + (b.x - a.x) * i;
    let yn: i64 = a.y * n + (b.y - a.y) * i;
    let zn: i64 = a.z * n + (b.z - a.z) * i;
    (xn, yn, zn)
}

/// Componentwise agreement between a cube value and a mathematical triple.
pub open spec fn cube_is(c: Cube, t: (int, int, int)) -> bool {
    c.x as int == t.0 && c.y as int == t.1 && c.z as int == t.2
}

/// Rasterize the straight segment from `a` to `b` onto grid cells: with
/// `N = distance(a, b)`, the result holds the `N` samples `i = 0 .. N-1`,
/// each the interpolated point at `t = i / N` rounded back onto the
/// lattice. The destination endpoint `b` is deliberately not included, and
/// a degenerate segment (`N == 0`) yields the empty sequence; both follow
/// from the uniform rule that sample `i` of `N` exists for `0 <= i < N`.
/// The step `1 / N` is never formed when `N == 0`.
pub fn cube_linedraw(a: Cube, b: Cube) -> (r: Vec<Cube>)
    requires
        a.wf(),
        b.wf(),
        in_box(a, LINE_BOUND as int),
        in_box(b, LINE_BOUND as int),
    ensures
        r@.len() == cube_distance_s(
            a.x as int, a.y as int, a.z as int,
            b.x as int, b.y as int, b.z as int,
        ),
        forall|i: int|
            0 <= i < r@.len() ==> cube_is(
                #[trigger] r@[i],
                line_sample_s(
                    a.x as int, a.y as int, a.z as int,
                    b.x as int, b.y as int, b.z as int,
                    i,
                    r@.len() as int,
                ),
            ),
        forall|i: int| 0 <= i < r@.len() ==> (#[trigger] r@[i]).wf(),
        r@.len() > 0 ==> r@[0] == a,
{
    proof {
        lemma_abs_sum_even(
            a.x - b.x,
            a.y - b.y,
            a.z - b.z,
        );
    }
    let n: i64 = cube_distance(a, b);
    assert(n <= 3 * LINE_BOUND);
    let ghost nd: int = cube_distance_s(
        a.x as int, a.y as int, a.z as int,
        b.x as int, b.y as int, b.z as int,
    );
    let mut out: Vec<Cube> = Vec::new();
    let mut idx: i64 = 0;
    while idx < n
        invariant
            0 <= idx <= n,
            n == nd,
            n <= 3 * LINE_BOUND,
            a.wf(),
            b.wf(),
            in_box(a, LINE_BOUND as int),
            in_box(b, LINE_BOUND as int),
            out@.len() == idx,
            forall|j: int|
                0 <= j < idx ==> cube_is(
                    #[trigger] out@[j],
                    line_sample_s(
                        a.x as int, a.y as int, a.z as int,
                        b.x as int, b.y as int, b.z as int,
                        j,
                        nd,
                    ),
                ),
            forall|j: int| 0 <= j < idx ==> (#[trigger] out@[j]).wf(),
        decreases n - idx,
    {
        proof {
            lemma_lerp_num_between(a.x as int, b.x as int, idx as int, n as int);
            lemma_lerp_num_between(a.y as int, b.y as int, idx as int, n as int);
            lemma_lerp_num_between(a.z as int, b.z as int, idx as int, n as int);
            lemma_linedraw_products_fit(a.x as int, b.x as int, idx as int, n as int);
            lemma_linedraw_products_fit(a.y as int, b.y as int, idx as int, n as int);
            lemma_linedraw_products_fit(a.z as int, b.z as int, idx as int, n as int);
        }
        let s: (i64, i64, i64) = cube_lerp_frac(a, b, idx, n);
        let c: Cube = cube_round_frac(s.0, s.1, s.2, n);
        out.push(c);
        idx = idx + 1;
    }
    proof {
        if n > 0 {
            lemma_line_endpoints(
                a.x as int, a.y as int, a.z as int,
                b.x as int, b.y as int, b.z as int,
                nd,
            );
            assert(cube_is(out@[0], (a.x as int, a.y as int, a.z as int)));
        }
    }
    out
}

/// With both endpoint coordinates inside the engine's box and `0 <= i <= n
/// <= 3 * LINE_BOUND`, every intermediate of one axis of the engine fits in
/// an `i64`.
proof fn lemma_linedraw_products_fit(a: int, b: int, i: int, n: int)
    requires
        n > 0,
        0 <= i <= n,
        n <= 3 * (LINE_BOUND as int),
        abs_i(a) <= LINE_BOUND as int,
        abs_i(b) <= LINE_BOUND as int,
    ensures
        lerp_fits(a, b, i, n),
        2 * abs_i(lerp_num(a, b, i, n)) + n <= i64::MAX,
{
    let bound: int = LINE_BOUND as int;
    assert(abs_i(a * n) <= bound * n && abs_i(b * n) <= bound * n && abs_i((b - a) * i) <= 2
        * bound * n) by (nonlinear_arith)
        requires
            n > 0,
            0 <= i <= n,
            abs_i(a) <= bound,
            abs_i(b) <= bound,
    ;
    assert(bound * n <= bound * (3 * bound) && 2 * bound * n <= 2 * bound * (3 * bound))
        by (nonlinear_arith)
        requires
            0 < n <= 3 * bound,
            bound > 0,
    ;
    lemma_lerp_num_between(a, b, i, n);
    assert(abs_i(lerp_num(a, b, i, n)) <= bound * n);
}

} // verus!
