//! Points in fixed-point coordinates.
use vstd::prelude::*;

verus! {

/// Units per whole coordinate: a coordinate `c` stands for `c / SCALE`.
pub const SCALE: i64 = 1_000_000_000_000;

/// A point in space. Each coordinate counts units of `1 / SCALE`.
#[derive(Clone, Copy, Debug, PartialEq, Eq, Structural)]
pub struct Point3 {
    pub x: i64,
    pub y: i64,
    pub z: i64,
}

/// The point at which every trail starts: (1, 1, 1).
pub open spec fn seed_point() -> Point3 {
    Point3 { x: SCALE, y: SCALE, z: SCALE }
}

impl Point3 {
    /// A point from its coordinates in units of `1 / SCALE`.
    pub fn new(x: i64, y: i64, z: i64) -> (r: Point3)
        ensures
            r == (Point3 { x, y, z }),
    {
        Point3 { x, y, z }
    }

    /// The starting point of every trail, (1, 1, 1).
    pub fn seed() -> (r: Point3)
        ensures
            r == seed_point(),
    {
        Point3 { x: SCALE, y: SCALE, z: SCALE }
    }
}

} // verus!
