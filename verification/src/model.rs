//! The mathematical picture behind the executable types: points, vectors and
//! sizes are triples of integers, and a box is the pair of its minimum and
//! maximum corners.

use vstd::prelude::*;

use crate::num::{trunc_div, Coord};

verus! {

/// Three integers: the coordinates of a point or a vector, or the extents of a size.
pub struct Triple {
    pub x: int,
    pub y: int,
    pub z: int,
}

/// An axis-aligned box given by its minimum and maximum corners. Nothing requires
/// the minimum to lie below the maximum: such a box is inverted.
pub struct Cuboid {
    pub min: Triple,
    pub max: Triple,
}

pub open spec fn int_min(a: int, b: int) -> int {
    if a <= b { a } else { b }
}

pub open spec fn int_max(a: int, b: int) -> int {
    if a >= b { a } else { b }
}

pub open spec fn triple(x: int, y: int, z: int) -> Triple {
    Triple { x, y, z }
}

impl Triple {
    pub open spec fn plus(self, o: Triple) -> Triple {
        triple(self.x + o.x, self.y + o.y, self.z + o.z)
    }

    pub open spec fn minus(self, o: Triple) -> Triple {
        triple(self.x - o.x, self.y - o.y, self.z - o.z)
    }

    pub open spec fn times(self, o: Triple) -> Triple {
        triple(self.x * o.x, self.y * o.y, self.z * o.z)
    }

    pub open spec fn scaled(self, k: int) -> Triple {
        triple(self.x * k, self.y * k, self.z * k)
    }

    pub open spec fn divided(self, k: int) -> Triple {
        triple(trunc_div(self.x, k), trunc_div(self.y, k), trunc_div(self.z, k))
    }

    pub open spec fn min_with(self, o: Triple) -> Triple {
        triple(int_min(self.x, o.x), int_min(self.y, o.y), int_min(self.z, o.z))
    }

    pub open spec fn max_with(self, o: Triple) -> Triple {
        triple(int_max(self.x, o.x), int_max(self.y, o.y), int_max(self.z, o.z))
    }

    /// Componentwise `self <= o`.
    pub open spec fn le(self, o: Triple) -> bool {
        self.x <= o.x && self.y <= o.y && self.z <= o.z
    }

    /// Each coordinate can be held by the coordinate type `T`.
    pub open spec fn fits<T: Coord>(self) -> bool {
        T::in_range(self.x) && T::in_range(self.y) && T::in_range(self.z)
    }
}

pub open spec fn zero_triple() -> Triple {
    triple(0, 0, 0)
}

impl Cuboid {
    pub open spec fn size(self) -> Triple {
        self.max.minus(self.min)
    }

    /// A box is empty when one of its extents is zero.
    pub open spec fn is_empty(self) -> bool {
        let s = self.size();
        s.x == 0 || s.y == 0 || s.z == 0
    }

    /// The minimum corner lies at or below the maximum corner on every axis.
    pub open spec fn is_ordered(self) -> bool {
        self.min.le(self.max)
    }

    /// The interiors of the two boxes overlap.
    pub open spec fn intersects(self, o: Cuboid) -> bool {
        &&& self.min.x < o.max.x && self.max.x > o.min.x
        &&& self.min.y < o.max.y && self.max.y > o.min.y
        &&& self.min.z < o.max.z && self.max.z > o.min.z
    }

    pub open spec fn intersection(self, o: Cuboid) -> Cuboid {
        Cuboid { min: self.min.max_with(o.min), max: self.max.min_with(o.max) }
    }

    pub open spec fn union(self, o: Cuboid) -> Cuboid {
        Cuboid { min: self.min.min_with(o.min), max: self.max.max_with(o.max) }
    }

    /// A point is inside when it lies at or above the minimum and below the maximum
    /// on x (the left face belongs to the box, the right one does not), and above
    /// the minimum and at or below the maximum on y and z (the top and front faces
    /// belong to the box, the bottom and back ones do not).
    pub open spec fn contains(self, p: Triple) -> bool {
        &&& self.min.x <= p.x && p.x < self.max.x
        &&& self.min.y < p.y && p.y <= self.max.y
        &&& self.min.z < p.z && p.z <= self.max.z
    }

    /// The point lies in the closed box, faces included.
    pub open spec fn covers(self, p: Triple) -> bool {
        self.min.le(p) && p.le(self.max)
    }

    /// Either `o` is empty, or this box is not empty and `o`'s corners lie within
    /// its corners.
    pub open spec fn contains_box(self, o: Cuboid) -> bool {
        o.is_empty() || (!self.is_empty() && self.min.le(o.min) && o.max.le(self.max))
    }

    pub open spec fn translate(self, v: Triple) -> Cuboid {
        Cuboid { min: self.min.plus(v), max: self.max.plus(v) }
    }

    /// Moves the minimum corner down and the maximum corner up by `d` on each axis.
    pub open spec fn inflate(self, d: Triple) -> Cuboid {
        Cuboid { min: self.min.minus(d), max: self.max.plus(d) }
    }

    pub open spec fn scale(self, k: Triple) -> Cuboid {
        Cuboid { min: self.min.times(k), max: self.max.times(k) }
    }

    pub open spec fn scaled_by(self, k: int) -> Cuboid {
        Cuboid { min: self.min.scaled(k), max: self.max.scaled(k) }
    }

    pub open spec fn divided_by(self, k: int) -> Cuboid {
        Cuboid { min: self.min.divided(k), max: self.max.divided(k) }
    }

    /// The midpoint of the corners, each coordinate divided by two as Rust divides.
    pub open spec fn center(self) -> Triple {
        self.min.plus(self.max).divided(2)
    }

    /// The box at `t` on the way from this box to `o`: each corner coordinate is
    /// `(1 - t) * a + t * b`.
    pub open spec fn lerp(self, o: Cuboid, t: int) -> Cuboid {
        Cuboid { min: lerp_triple(self.min, o.min, t), max: lerp_triple(self.max, o.max, t) }
    }

    pub open spec fn volume(self) -> int {
        let s = self.size();
        s.x * s.y * s.z
    }

    pub open spec fn xy_area(self) -> int {
        let s = self.size();
        s.x * s.y
    }

    pub open spec fn yz_area(self) -> int {
        let s = self.size();
        s.z * s.y
    }

    pub open spec fn xz_area(self) -> int {
        let s = self.size();
        s.z * s.x
    }

    /// Each corner coordinate can be held by the coordinate type `T`.
    pub open spec fn fits<T: Coord>(self) -> bool {
        self.min.fits::<T>() && self.max.fits::<T>()
    }
}

pub open spec fn lerp_triple(a: Triple, b: Triple, t: int) -> Triple {
    triple(lerp_int(a.x, b.x, t), lerp_int(a.y, b.y, t), lerp_int(a.z, b.z, t))
}

pub open spec fn lerp_int(a: int, b: int, t: int) -> int {
    (1 - t) * a + t * b
}

pub open spec fn zero_cuboid() -> Cuboid {
    Cuboid { min: zero_triple(), max: zero_triple() }
}

/// The values met on the way to `(1 - t) * a + t * b` each fit in `T`.
pub open spec fn lerp_int_fits<T: Coord>(a: int, b: int, t: int) -> bool {
    &&& T::in_range(1 - t)
    &&& T::in_range((1 - t) * a)
    &&& T::in_range(t * b)
    &&& T::in_range((1 - t) * a + t * b)
}

pub open spec fn lerp_triple_fits<T: Coord>(a: Triple, b: Triple, t: int) -> bool {
    lerp_int_fits::<T>(a.x, b.x, t) && lerp_int_fits::<T>(a.y, b.y, t) && lerp_int_fits::<T>(a.z, b.z, t)
}

/// `r` is the bounding box of `pts`: on each axis its minimum and maximum are the
/// smallest and largest coordinate of the points.
pub open spec fn is_bounding_box(pts: Seq<Triple>, r: Cuboid) -> bool {
    &&& forall|i: int| 0 <= i < pts.len() ==> #[trigger] r.covers(pts[i])
    &&& exists|i: int| 0 <= i < pts.len() && #[trigger] pts[i].x == r.min.x
    &&& exists|i: int| 0 <= i < pts.len() && #[trigger] pts[i].y == r.min.y
    &&& exists|i: int| 0 <= i < pts.len() && #[trigger] pts[i].z == r.min.z
    &&& exists|i: int| 0 <= i < pts.len() && #[trigger] pts[i].x == r.max.x
    &&& exists|i: int| 0 <= i < pts.len() && #[trigger] pts[i].y == r.max.y
    &&& exists|i: int| 0 <= i < pts.len() && #[trigger] pts[i].z == r.max.z
}

} // verus!
