//! Points and offsets on the integer world grid, and yaw rotation by whole
//! quarter turns about the vertical (Y) axis.
use vstd::prelude::*;

verus! {

/// Largest magnitude a stored coordinate may have, so that a point plus an
/// offset always fits in an `i64`.
pub const COORD_LIMIT: i64 = 0x3fff_ffff_ffff_ffff;

/// A point or offset in world space, as mathematical integers.
pub type Point3 = (int, int, int);

/// A point or offset in world space, in whole grid units.
#[derive(Clone, Copy, Debug, PartialEq, Eq, Structural)]
pub struct GridVec {
    pub x: i64,
    pub y: i64,
    pub z: i64,
}

pub open spec fn add3(a: Point3, b: Point3) -> Point3 {
    (a.0 + b.0, a.1 + b.1, a.2 + b.2)
}

pub open spec fn sub3(a: Point3, b: Point3) -> Point3 {
    (a.0 - b.0, a.1 - b.1, a.2 - b.2)
}

/// The squared Euclidean length.
pub open spec fn norm_sq(v: Point3) -> int {
    v.0 * v.0 + v.1 * v.1 + v.2 * v.2
}

/// A yaw of +90 degrees: the right-handed rotation about +Y, taking +X to -Z.
pub open spec fn quarter_turn(v: Point3) -> Point3 {
    (v.2, v.1, -v.0)
}

/// `v` turned by `n` quarter turns of positive yaw.
pub open spec fn rot_y(v: Point3, n: nat) -> Point3
    decreases n,
{
    if n == 0 {
        v
    } else {
        quarter_turn(rot_y(v, (n - 1) as nat))
    }
}

pub open spec fn coord_ok(c: int) -> bool {
    -COORD_LIMIT <= c <= COORD_LIMIT
}

/// Every coordinate lies within `COORD_LIMIT`.
pub open spec fn bounded(v: Point3) -> bool {
    coord_ok(v.0) && coord_ok(v.1) && coord_ok(v.2)
}

impl View for GridVec {
    type V = Point3;

    open spec fn view(&self) -> Point3 {
        (self.x as int, self.y as int, self.z as int)
    }
}

impl GridVec {
    pub fn new(x: i64, y: i64, z: i64) -> (r: GridVec)
        ensures
            r@ == (x as int, y as int, z as int),
    {
        GridVec { x, y, z }
    }

    pub fn zero() -> (r: GridVec)
        ensures
            r@ == (0int, 0int, 0int),
    {
        GridVec { x: 0, y: 0, z: 0 }
    }

    /// Whether every coordinate lies within `COORD_LIMIT`.
    pub fn is_bounded(&self) -> (r: bool)
        ensures
            r == bounded(self@),
    {
        -COORD_LIMIT <= self.x && self.x <= COORD_LIMIT && -COORD_LIMIT <= self.y && self.y
            <= COORD_LIMIT && -COORD_LIMIT <= self.z && self.z <= COORD_LIMIT
    }

    pub fn add(&self, o: &GridVec) -> (r: GridVec)
        requires
            bounded(self@),
            bounded(o@),
        ensures
            r@ == add3(self@, o@),
    {
        GridVec { x: self.x + o.x, y: self.y + o.y, z: self.z + o.z }
    }

    pub fn sub(&self, o: &GridVec) -> (r: GridVec)
        requires
            bounded(self@),
            bounded(o@),
        ensures
            r@ == sub3(self@, o@),
    {
        GridVec { x: self.x - o.x, y: self.y - o.y, z: self.z - o.z }
    }

    /// This offset turned by `q` quarter turns of positive yaw.
    pub fn rotate_y(&self, q: u8) -> (r: GridVec)
        requires
            bounded(self@),
            q < 4,
        ensures
            r@ == rot_y(self@, q as nat),
            bounded(r@),
    {
        proof {
            reveal_with_fuel(rot_y, 4);
        }
        if q == 0 {
            *self
        } else if q == 1 {
            GridVec { x: self.z, y: self.y, z: -self.x }
        } else if q == 2 {
            GridVec { x: -self.x, y: self.y, z: -self.z }
        } else {
            GridVec { x: -self.z, y: self.y, z: self.x }
        }
    }
}

/// A yaw rotation keeps the length of an offset.
pub proof fn lemma_rot_y_keeps_norm(v: Point3, n: nat)
    ensures
        norm_sq(rot_y(v, n)) == norm_sq(v),
        bounded(v) ==> bounded(rot_y(v, n)),
    decreases n,
{
    if n > 0 {
        lemma_rot_y_keeps_norm(v, (n - 1) as nat);
        let w = rot_y(v, (n - 1) as nat);
        assert(norm_sq(quarter_turn(w)) == norm_sq(w)) by (nonlinear_arith);
    }
}

} // verus!
