//! Coordinate algebra for hexagonal grids.
//!
//! Three interchangeable integer representations of a hex-lattice point are
//! provided: axial (`Hex`), cube (`Cube`, redundant three-axis form with the
//! invariant `x + y + z == 0`), and odd-row offset (`OddR`). On top of them
//! stand the six-way direction and neighbor tables, 60-degree rotation, the
//! hex distance metric, and the discretization engine that rasterizes a
//! straight segment onto grid cells using exact rational arithmetic.

use vstd::prelude::*;

pub mod convert;
pub mod dirs;
pub mod distance;
pub mod line;
pub mod rotate;
pub mod unit;

pub use convert::cube_to_hex;
pub use convert::cube_to_offset;
pub use convert::hex_to_cube;
pub use convert::offset_to_cube;
pub use dirs::cube_direction;
pub use dirs::cube_neighbor;
pub use dirs::hex_direction;
pub use dirs::hex_neighbor;
pub use dirs::offset_direction;
pub use dirs::offset_neighbor;
pub use distance::cube_distance;
pub use line::cube_lerp_frac;
pub use line::cube_linedraw;
pub use line::cube_round_frac;
pub use rotate::cube_rotate;
pub use unit::unit_neighbor;
pub use unit::unit_rotate;

verus! {

/// Axial hex coordinate `(q, r)`: the redundancy-free encoding, implicitly
/// equal to the cube point `(q, -q-r, r)`.
#[derive(Clone, Copy, PartialEq, Eq, Structural, Debug)]
pub struct Hex {
    pub q: i64,
    pub r: i64,
}

/// Cube hex coordinate `(x, y, z)`. A valid cube point satisfies
/// [`Cube::wf`], that is `x + y + z == 0`; every operation here that
/// produces a `Cube` guarantees it.
#[derive(Clone, Copy, PartialEq, Eq, Structural, Debug)]
pub struct Cube {
    pub x: i64,
    pub y: i64,
    pub z: i64,
}

/// Odd-row offset coordinate `(col, row)`: the rectangular-storage encoding.
/// The parity of `row` decides which neighbor table applies.
#[derive(Clone, Copy, PartialEq, Eq, Structural, Debug)]
pub struct OddR {
    pub col: i64,
    pub row: i64,
}

/// An ordered group of cube cells together with a pivot to rotate about.
/// The pivot need not be a member, and members may coincide.
pub struct Unit {
    pub members: Vec<Cube>,
    pub pivot: Cube,
}

impl Cube {
    /// The cube invariant: the three redundant axes sum to zero.
    pub open spec fn wf(self) -> bool {
        self.x + self.y + self.z == 0
    }

    /// Componentwise sum of two cube vectors.
    pub fn add(self, other: Cube) -> (r: Cube)
        requires
            i64::MIN <= self.x + other.x <= i64::MAX,
            i64::MIN <= self.y + other.y <= i64::MAX,
            i64::MIN <= self.z + other.z <= i64::MAX,
        ensures
            r.x == self.x + other.x,
            r.y == self.y + other.y,
            r.z == self.z + other.z,
            self.wf() && other.wf() ==> r.wf(),
    {
        Cube { x: self.x + other.x, y: self.y + other.y, z: self.z + other.z }
    }

    /// Componentwise negation of a cube vector.
    pub fn neg(self) -> (r: Cube)
        requires
            self.x > i64::MIN,
            self.y > i64::MIN,
            self.z > i64::MIN,
        ensures
            r.x == -self.x,
            r.y == -self.y,
            r.z == -self.z,
            self.wf() ==> r.wf(),
    {
        Cube { x: -self.x, y: -self.y, z: -self.z }
    }

    /// Componentwise difference, `self - other`.
    pub fn sub(self, other: Cube) -> (r: Cube)
        requires
            other.x > i64::MIN,
            other.y > i64::MIN,
            other.z > i64::MIN,
            i64::MIN <= self.x - other.x <= i64::MAX,
            i64::MIN <= self.y - other.y <= i64::MAX,
            i64::MIN <= self.z - other.z <= i64::MAX,
        ensures
            r.x == self.x - other.x,
            r.y == self.y - other.y,
            r.z == self.z - other.z,
            self.wf() && other.wf() ==> r.wf(),
    {
        self.add(other.neg())
    }
}

impl Hex {
    /// Componentwise sum of two axial vectors.
    pub fn add(self, other: Hex) -> (r: Hex)
        requires
            i64::MIN <= self.q + other.q <= i64::MAX,
            i64::MIN <= self.r + other.r <= i64::MAX,
        ensures
            r.q == self.q + other.q,
            r.r == self.r + other.r,
    {
        Hex { q: self.q + other.q, r: self.r + other.r }
    }
}

impl OddR {
    /// Componentwise sum of two offset vectors.
    pub fn add(self, other: OddR) -> (r: OddR)
        requires
            i64::MIN <= self.col + other.col <= i64::MAX,
            i64::MIN <= self.row + other.row <= i64::MAX,
        ensures
            r.col == self.col + other.col,
            r.row == self.row + other.row,
    {
        OddR { col: self.col + other.col, row: self.row + other.row }
    }
}

} // verus!
