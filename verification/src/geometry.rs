//! Points and forces in whole world units, and the distance test that the
//! pointer hit test rests on.

use vstd::prelude::*;

verus! {

/// A position in the plane.
#[derive(Clone, Copy, Debug, PartialEq, Eq, Structural)]
pub struct Vector2 {
    pub x: i32,
    pub y: i32,
}

/// A force on a body. The difference of two positions always fits.
#[derive(Clone, Copy, Debug, PartialEq, Eq, Structural)]
pub struct Force {
    pub x: i64,
    pub y: i64,
}

impl Vector2 {
    /// The square of the Euclidean distance between two points.
    pub open spec fn dist_sq(self, other: Vector2) -> int {
        (self.x - other.x) * (self.x - other.x) + (self.y - other.y) * (self.y - other.y)
    }

    /// The point lies strictly closer to `center` than `radius`. A radius that
    /// is not positive contains nothing.
    pub open spec fn within(self, center: Vector2, radius: int) -> bool {
        0 < radius && self.dist_sq(center) < radius * radius
    }

    /// The force that pulls a body at `self` toward `target`: the plain
    /// difference, with no gain and no clamp.
    pub open spec fn pull_toward(self, target: Vector2) -> Force {
        Force { x: (target.x - self.x) as i64, y: (target.y - self.y) as i64 }
    }

    /// A point at distance `radius` exactly is outside the disc, and so is
    /// every point farther off. The centre of a disc with a positive radius
    /// is inside. The distance is the same from either end.
    pub proof fn lemma_disc(self, center: Vector2, radius: int)
        ensures
            self.dist_sq(center) >= radius * radius ==> !self.within(center, radius),
            radius > 0 ==> center.within(center, radius),
            self.dist_sq(center) == center.dist_sq(self),
    {
        assert(radius > 0 ==> radius * radius > 0) by (nonlinear_arith);
        assert((self.x - center.x) * (self.x - center.x) == (center.x - self.x) * (center.x
            - self.x)) by (nonlinear_arith);
        assert((self.y - center.y) * (self.y - center.y) == (center.y - self.y) * (center.y
            - self.y)) by (nonlinear_arith);
    }

    /// The point `(x, y)`.
    pub fn new(x: i32, y: i32) -> (p: Vector2)
        ensures
            p == (Vector2 { x, y }),
    {
        Vector2 { x, y }
    }

    /// Decides whether the point lies strictly inside the disc around
    /// `center`. A point exactly on the rim is outside.
    pub fn is_within(&self, center: Vector2, radius: i32) -> (inside: bool)
        ensures
            inside == self.within(center, radius as int),
    {
        if radius <= 0 {
            return false;
        }
        let dx: i128 = self.x as i128 - center.x as i128;
        let dy: i128 = self.y as i128 - center.y as i128;
        let r: i128 = radius as i128;
        assert(0 <= dx * dx <= 0xFFFF_FFFF * 0xFFFF_FFFF) by (nonlinear_arith)
            requires
                -0xFFFF_FFFF <= dx <= 0xFFFF_FFFF,
        ;
        assert(0 <= dy * dy <= 0xFFFF_FFFF * 0xFFFF_FFFF) by (nonlinear_arith)
            requires
                -0xFFFF_FFFF <= dy <= 0xFFFF_FFFF,
        ;
        assert(0 <= r * r <= 0x7FFF_FFFF * 0x7FFF_FFFF) by (nonlinear_arith)
            requires
                0 < r <= 0x7FFF_FFFF,
        ;
        dx * dx + dy * dy < r * r
    }

    /// Computes the steering force from this position toward `target`.
    pub fn force_toward(&self, target: Vector2) -> (f: Force)
        ensures
            f == self.pull_toward(target),
            f.x == target.x - self.x,
            f.y == target.y - self.y,
    {
        Force { x: target.x as i64 - self.x as i64, y: target.y as i64 - self.y as i64 }
    }
}

} // verus!
