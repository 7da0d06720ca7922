//! An axis-aligned box in three dimensions, given by its minimum and maximum corners.

use vstd::prelude::*;

use crate::approxord::{max, min};
use crate::length::Length;
use crate::model::{
    is_bounding_box, lerp_triple_fits, triple, zero_cuboid, zero_triple, Cuboid, Triple,
};
use crate::num::{lemma_trunc_div_toward_zero, Coord};
use crate::point::{Point3D, TypedPoint3D, TypedSize3D, TypedVector3D};
use crate::scale::TypedScale;
use crate::UnknownUnit;

use core::ops::{Div, Mul};

verus! {

/// An axis aligned 3D box represented by its minimum and maximum coordinates.
#[derive(Debug, Hash)]
pub struct TypedBox3D<T, U = UnknownUnit> {
    pub min: TypedPoint3D<T, U>,
    pub max: TypedPoint3D<T, U>,
}

/// The default box 3d type with no unit.
pub type Box3D<T> = TypedBox3D<T, UnknownUnit>;

impl<T: Coord, U> View for TypedBox3D<T, U> {
    type V = Cuboid;

    open spec fn view(&self) -> Cuboid {
        Cuboid { min: self.min@, max: self.max@ }
    }
}

impl<T: Copy, U> Clone for TypedBox3D<T, U> {
    fn clone(&self) -> (r: Self)
        ensures
            r == *self,
    {
        *self
    }
}

impl<T: Copy, U> Copy for TypedBox3D<T, U> {

}

impl<T: Coord, U> PartialEq for TypedBox3D<T, U> {
    fn eq(&self, other: &Self) -> (r: bool) {
        self.min.eq(&other.min) && self.max.eq(&other.max)
    }
}

impl<T: Coord, U> Eq for TypedBox3D<T, U> {

}

impl<T: Coord, U> vstd::std_specs::cmp::PartialEqSpecImpl for TypedBox3D<T, U> {
    open spec fn obeys_eq_spec() -> bool {
        true
    }

    open spec fn eq_spec(&self, other: &Self) -> bool {
        self@ == other@
    }
}

impl<T: Coord, U> TypedBox3D<T, U> {
    /// The box whose view is `c`.
    pub open spec fn from_view(c: Cuboid) -> Self {
        TypedBox3D { min: TypedPoint3D::from_view(c.min), max: TypedPoint3D::from_view(c.max) }
    }

    /// A box is determined by its view, and a cuboid that fits is the view of the
    /// box made from it.
    pub proof fn lemma_from_view(b: Self, c: Cuboid)
        requires
            c.fits::<T>(),
        ensures
            Self::from_view(c)@ == c,
            b@ == c ==> b == Self::from_view(c),
    {
        TypedPoint3D::<T, U>::lemma_view_from_view(c.min);
        TypedPoint3D::<T, U>::lemma_view_from_view(c.max);
        TypedPoint3D::lemma_from_view(b.min);
        TypedPoint3D::lemma_from_view(b.max);
    }

    /// Constructor.
    pub fn new(min: TypedPoint3D<T, U>, max: TypedPoint3D<T, U>) -> (r: Self)
        ensures
            r.min == min,
            r.max == max,
    {
        TypedBox3D { min, max }
    }

    /// Creates a Box3D of the given size, at offset zero: the bounding box of the
    /// origin and the point at `size`.
    pub fn from_size(size: TypedSize3D<T, U>) -> (r: Self)
        ensures
            r@ == (Cuboid { min: zero_triple().min_with(size@), max: zero_triple().max_with(size@) }),
    {
        let zero = TypedPoint3D::zero();
        let point = size.to_vector().to_point();
        let pts = [zero, point];
        let r = Self::from_points(&pts);
        proof {
            let s = pts@.map_values(|p: TypedPoint3D<T, U>| p@);
            assert(s[0] == zero@ && s[1] == point@);
            assert(r@.covers(s[0]) && r@.covers(s[1]));
        }
        r
    }

    pub fn max_x(&self) -> (r: T)
        ensures
            r == self.max.x,
    {
        self.max.x
    }

    pub fn min_x(&self) -> (r: T)
        ensures
            r == self.min.x,
    {
        self.min.x
    }

    pub fn max_y(&self) -> (r: T)
        ensures
            r == self.max.y,
    {
        self.max.y
    }

    pub fn min_y(&self) -> (r: T)
        ensures
            r == self.min.y,
    {
        self.min.y
    }

    pub fn max_z(&self) -> (r: T)
        ensures
            r == self.max.z,
    {
        self.max.z
    }

    pub fn min_z(&self) -> (r: T)
        ensures
            r == self.min.z,
    {
        self.min.z
    }

    pub fn max_x_typed(&self) -> (r: Length<T, U>)
        ensures
            r.0 == self.max.x,
    {
        Length::new(self.max_x())
    }

    pub fn min_x_typed(&self) -> (r: Length<T, U>)
        ensures
            r.0 == self.min.x,
    {
        Length::new(self.min_x())
    }

    pub fn max_y_typed(&self) -> (r: Length<T, U>)
        ensures
            r.0 == self.max.y,
    {
        Length::new(self.max_y())
    }

    pub fn min_y_typed(&self) -> (r: Length<T, U>)
        ensures
            r.0 == self.min.y,
    {
        Length::new(self.min_y())
    }

    pub fn max_z_typed(&self) -> (r: Length<T, U>)
        ensures
            r.0 == self.max.z,
    {
        Length::new(self.max_z())
    }

    pub fn min_z_typed(&self) -> (r: Length<T, U>)
        ensures
            r.0 == self.min.z,
    {
        Length::new(self.min_z())
    }

    /// Whether the interiors of the two boxes overlap.
    pub fn intersects(&self, other: &Self) -> (r: bool)
        ensures
            r == self@.intersects(other@),
    {
        self.min_x().lt(other.max_x()) && other.min_x().lt(self.max_x())
            && self.min_y().lt(other.max_y()) && other.min_y().lt(self.max_y())
            && self.min_z().lt(other.max_z()) && other.min_z().lt(self.max_z())
    }

    /// The intersection of the two boxes, or `None` when they do not intersect.
    pub fn try_intersection(&self, other: &Self) -> (r: Option<Self>)
        ensures
            r is Some <==> self@.intersects(other@),
            r matches Some(b) ==> b@ == self@.intersection(other@),
    {
        if !self.intersects(other) {
            return None;
        }
        Some(self.intersection(other))
    }

    /// The box whose minimum corner is the larger of the two minimums and whose
    /// maximum corner is the smaller of the two maximums, axis by axis.
    pub fn intersection(&self, other: &Self) -> (r: Self)
        ensures
            r@ == self@.intersection(other@),
    {
        let intersection_min = TypedPoint3D::new(
            max(self.min_x(), other.min_x()),
            max(self.min_y(), other.min_y()),
            max(self.min_z(), other.min_z()),
        );
        let intersection_max = TypedPoint3D::new(
            min(self.max_x(), other.max_x()),
            min(self.max_y(), other.max_y()),
            min(self.max_z(), other.max_z()),
        );
        TypedBox3D::new(intersection_min, intersection_max)
    }

    /// Returns the same box3d, translated by a vector.
    pub fn translate(&self, by: &TypedVector3D<T, U>) -> (r: Self)
        requires
            self@.translate(by@).fits::<T>(),
        ensures
            r@ == self@.translate(by@),
    {
        Self::new(self.min.add_vector(by), self.max.add_vector(by))
    }

    /// Returns true if this box3d contains the point. Points are considered
    /// in the box3d if they are on the front, left or top faces, but outside if they
    /// are on the back, right or bottom faces: on x the point must lie at or above
    /// the minimum and below the maximum, on y and z above the minimum and at or
    /// below the maximum.
    pub fn contains(&self, other: &TypedPoint3D<T, U>) -> (r: bool)
        ensures
            r == self@.contains(other@),
    {
        self.min_x().le(other.x) && other.x.lt(self.max_x())
            && self.min_y().lt(other.y) && other.y.le(self.max_y())
            && self.min_z().lt(other.z) && other.z.le(self.max_z())
    }

    /// Returns true if this box3d contains the interior of the other box3d. Always
    /// returns true if other is empty, and always returns false if other is
    /// nonempty but this box3d is empty.
    pub fn contains_box(&self, other: &Self) -> (r: bool)
        requires
            self@.size().fits::<T>(),
            other@.size().fits::<T>(),
        ensures
            r == self@.contains_box(other@),
    {
        other.is_empty()
            || (!self.is_empty() && self.min_x().le(other.min_x()) && other.max_x().le(self.max_x())
                && self.min_y().le(other.min_y()) && other.max_y().le(self.max_y())
                && self.min_z().le(other.min_z()) && other.max_z().le(self.max_z()))
    }

    /// The extents of the box: the maximum corner minus the minimum corner.
    pub fn size(&self) -> (r: TypedSize3D<T, U>)
        requires
            self@.size().fits::<T>(),
        ensures
            r@ == self@.size(),
    {
        TypedSize3D::new(
            self.max_x().sub(self.min_x()),
            self.max_y().sub(self.min_y()),
            self.max_z().sub(self.min_z()),
        )
    }

    /// Inflates the box by the specified sizes on each side respectively: the
    /// minimum corner moves down and the maximum corner up by `width`, `height`
    /// and `depth` along x, y and z.
    pub fn inflate(&self, width: T, height: T, depth: T) -> (r: Self)
        requires
            self@.inflate(triple(width.val(), height.val(), depth.val())).fits::<T>(),
        ensures
            r@ == self@.inflate(triple(width.val(), height.val(), depth.val())),
    {
        TypedBox3D::new(
            TypedPoint3D::new(
                self.min_x().sub(width),
                self.min_y().sub(height),
                self.min_z().sub(depth),
            ),
            TypedPoint3D::new(
                self.max_x().add(width),
                self.max_y().add(height),
                self.max_z().add(depth),
            ),
        )
    }

    /// `inflate` with the amounts given as lengths.
    pub fn inflate_typed(&self, width: Length<T, U>, height: Length<T, U>, depth: Length<T, U>) -> (r: Self)
        requires
            self@.inflate(triple(width.0.val(), height.0.val(), depth.0.val())).fits::<T>(),
        ensures
            r@ == self@.inflate(triple(width.0.val(), height.0.val(), depth.0.val())),
    {
        self.inflate(width.get(), height.get(), depth.get())
    }

    /// Returns the smallest box containing all of the provided points, faces
    /// included. With no point at all, the result is the zero box.
    pub fn from_points(points: &[TypedPoint3D<T, U>]) -> (r: Self)
        ensures
            points@.len() == 0 ==> r@ == zero_cuboid(),
            points@.len() > 0 ==> is_bounding_box(
                points@.map_values(|p: TypedPoint3D<T, U>| p@),
                r@,
            ),
    {
        let n = points.len();
        if n == 0 {
            return TypedBox3D::zero();
        }
        let ghost pts = points@.map_values(|p: TypedPoint3D<T, U>| p@);
        let first = points[0];
        let mut min_x = first.x;
        let mut min_y = first.y;
        let mut min_z = first.z;
        let mut max_x = first.x;
        let mut max_y = first.y;
        let mut max_z = first.z;
        // Where each of the six extremes was found.
        let ghost mut at_min_x: int = 0;
        let ghost mut at_min_y: int = 0;
        let ghost mut at_min_z: int = 0;
        let ghost mut at_max_x: int = 0;
        let ghost mut at_max_y: int = 0;
        let ghost mut at_max_z: int = 0;
        assert(pts[0] == first@);
        let mut i: usize = 1;
        while i < n
            invariant
                1 <= i <= n,
                n == points@.len(),
                pts == points@.map_values(|p: TypedPoint3D<T, U>| p@),
                forall|j: int|
                    0 <= j < i ==> (Cuboid {
                        min: triple(min_x.val(), min_y.val(), min_z.val()),
                        max: triple(max_x.val(), max_y.val(), max_z.val()),
                    }).covers(#[trigger] pts[j]),
                0 <= at_min_x < i && pts[at_min_x].x == min_x.val(),
                0 <= at_min_y < i && pts[at_min_y].y == min_y.val(),
                0 <= at_min_z < i && pts[at_min_z].z == min_z.val(),
                0 <= at_max_x < i && pts[at_max_x].x == max_x.val(),
                0 <= at_max_y < i && pts[at_max_y].y == max_y.val(),
                0 <= at_max_z < i && pts[at_max_z].z == max_z.val(),
            decreases n - i,
        {
            let p = points[i];
            assert(pts[i as int] == p@);
            let ghost old_c = Cuboid {
                min: triple(min_x.val(), min_y.val(), min_z.val()),
                max: triple(max_x.val(), max_y.val(), max_z.val()),
            };
            if p.x.lt(min_x) {
                min_x = p.x;
                proof { at_min_x = i as int; }
            }
            if max_x.lt(p.x) {
                max_x = p.x;
                proof { at_max_x = i as int; }
            }
            if p.y.lt(min_y) {
                min_y = p.y;
                proof { at_min_y = i as int; }
            }
            if max_y.lt(p.y) {
                max_y = p.y;
                proof { at_max_y = i as int; }
            }
            if p.z.lt(min_z) {
                min_z = p.z;
                proof { at_min_z = i as int; }
            }
            if max_z.lt(p.z) {
                max_z = p.z;
                proof { at_max_z = i as int; }
            }
            proof {
                let c = Cuboid {
                    min: triple(min_x.val(), min_y.val(), min_z.val()),
                    max: triple(max_x.val(), max_y.val(), max_z.val()),
                };
                assert forall|j: int| 0 <= j <= i implies c.covers(#[trigger] pts[j]) by {
                    if j < i {
                        assert(old_c.covers(pts[j]));
                    }
                }
            }
            i = i + 1;
        }
        let r = Self::new(TypedPoint3D::new(min_x, min_y, min_z), TypedPoint3D::new(max_x, max_y, max_z));
        proof {
            assert(pts[at_min_x].x == r@.min.x);
            assert(pts[at_min_y].y == r@.min.y);
            assert(pts[at_min_z].z == r@.min.z);
            assert(pts[at_max_x].x == r@.max.x);
            assert(pts[at_max_y].y == r@.max.y);
            assert(pts[at_max_z].z == r@.max.z);
            assert forall|j: int| 0 <= j < pts.len() implies #[trigger] r@.covers(pts[j]) by {
            }
        }
        r
    }

    /// Linearly interpolate between this box3d and another box3d: each corner
    /// coordinate becomes `(1 - t) * a + t * b`. `t` is expected to be between
    /// zero and one.
    pub fn lerp(&self, other: Self, t: T) -> (r: Self)
        requires
            lerp_triple_fits::<T>(self@.min, other@.min, t.val()),
            lerp_triple_fits::<T>(self@.max, other@.max, t.val()),
        ensures
            r@ == self@.lerp(other@, t.val()),
    {
        Self::new(self.min.lerp(other.min, t), self.max.lerp(other.max, t))
    }

    /// The midpoint of the two corners, each coordinate halved as Rust divides.
    pub fn center(&self) -> (r: TypedPoint3D<T, U>)
        requires
            self@.min.plus(self@.max).fits::<T>(),
        ensures
            r@ == self@.center(),
    {
        proof {
            T::lemma_range_holds_small();
        }
        let two = T::one().add(T::one());
        let sum = self.min.add_vector(&self.max.to_vector());
        proof {
            let s = sum@;
            lemma_fits_toward_zero::<T>(s.x);
            lemma_fits_toward_zero::<T>(s.y);
            lemma_fits_toward_zero::<T>(s.z);
        }
        sum.div_scalar(two)
    }

    /// The smallest box that holds both boxes' corners: the smaller minimums and the
    /// larger maximums, axis by axis.
    pub fn union(&self, other: &Self) -> (r: Self)
        ensures
            r@ == self@.union(other@),
    {
        TypedBox3D::new(
            TypedPoint3D::new(
                min(self.min_x(), other.min_x()),
                min(self.min_y(), other.min_y()),
                min(self.min_z(), other.min_z()),
            ),
            TypedPoint3D::new(
                max(self.max_x(), other.max_x()),
                max(self.max_y(), other.max_y()),
                max(self.max_z(), other.max_z()),
            ),
        )
    }

    /// Multiplies the x, y and z coordinates of both corners by `x`, `y` and `z`.
    pub fn scale(&self, x: T, y: T, z: T) -> (r: Self)
        requires
            self@.scale(triple(x.val(), y.val(), z.val())).fits::<T>(),
        ensures
            r@ == self@.scale(triple(x.val(), y.val(), z.val())),
    {
        TypedBox3D::new(
            TypedPoint3D::new(self.min.x.mul(x), self.min.y.mul(y), self.min.z.mul(z)),
            TypedPoint3D::new(self.max.x.mul(x), self.max.y.mul(y), self.max.z.mul(z)),
        )
    }

    /// Width times height times depth.
    pub fn volume(&self) -> (r: T)
        requires
            self@.size().fits::<T>(),
            T::in_range(self@.size().x * self@.size().y),
            T::in_range(self@.volume()),
        ensures
            r.val() == self@.volume(),
    {
        let size = self.size();
        size.width.mul(size.height).mul(size.depth)
    }

    /// Width times height.
    pub fn xy_area(&self) -> (r: T)
        requires
            self@.size().fits::<T>(),
            T::in_range(self@.xy_area()),
        ensures
            r.val() == self@.xy_area(),
    {
        let size = self.size();
        size.width.mul(size.height)
    }

    /// Depth times height.
    pub fn yz_area(&self) -> (r: T)
        requires
            self@.size().fits::<T>(),
            T::in_range(self@.yz_area()),
        ensures
            r.val() == self@.yz_area(),
    {
        let size = self.size();
        size.depth.mul(size.height)
    }

    /// Depth times width.
    pub fn xz_area(&self) -> (r: T)
        requires
            self@.size().fits::<T>(),
            T::in_range(self@.xz_area()),
        ensures
            r.val() == self@.xz_area(),
    {
        let size = self.size();
        size.depth.mul(size.width)
    }

    /// Constructor, setting all sides to zero.
    pub fn zero() -> (r: Self)
        ensures
            r@ == zero_cuboid(),
    {
        TypedBox3D::new(TypedPoint3D::zero(), TypedPoint3D::zero())
    }

    /// Returns true if the size is zero along some axis, whatever the corners' values.
    pub fn is_empty(&self) -> (r: bool)
        requires
            self@.size().fits::<T>(),
        ensures
            r == self@.is_empty(),
    {
        let size = self.size();
        size.width.eq(T::zero()) || size.height.eq(T::zero()) || size.depth.eq(T::zero())
    }

    /// Drop the units, preserving only the numeric value.
    pub fn to_untyped(&self) -> (r: Box3D<T>)
        ensures
            r@ == self@,
    {
        TypedBox3D::new(self.min.to_untyped(), self.max.to_untyped())
    }

    /// Tag a unitless value with units.
    pub fn from_untyped(c: &Box3D<T>) -> (r: TypedBox3D<T, U>)
        ensures
            r@ == c@,
    {
        TypedBox3D::new(TypedPoint3D::from_untyped(&c.min), TypedPoint3D::from_untyped(&c.max))
    }

    /// Cast from one numeric representation to another, preserving the units.
    /// Every coordinate must fit in the new type.
    pub fn cast<T1: Coord>(&self) -> (r: TypedBox3D<T1, U>)
        requires
            self@.fits::<T1>(),
        ensures
            r@ == self@,
    {
        TypedBox3D::new(self.min.cast(), self.max.cast())
    }

    /// Fallible cast from one numeric representation to another, preserving the
    /// units: `None` when a coordinate does not fit in the new type.
    pub fn try_cast<T1: Coord>(&self) -> (r: Option<TypedBox3D<T1, U>>)
        ensures
            r is Some <==> self@.fits::<T1>(),
            r matches Some(b) ==> b@ == self@,
    {
        match (self.min.try_cast(), self.max.try_cast()) {
            (Some(a), Some(b)) => Some(TypedBox3D::new(a, b)),
            _ => None,
        }
    }

    /// Return a box3d with edges rounded to integer coordinates. Integer
    /// coordinates are their own rounding, so the box is unchanged.
    pub fn round(&self) -> (r: Self)
        ensures
            r@ == self@,
    {
        TypedBox3D::new(
            TypedPoint3D::new(self.min.x.round(), self.min.y.round(), self.min.z.round()),
            TypedPoint3D::new(self.max.x.round(), self.max.y.round(), self.max.z.round()),
        )
    }

    /// Return a box3d with faces/edges rounded to integer coordinates, such that
    /// the original box3d contains the resulting box3d: the minimum corner is
    /// rounded up and the maximum corner down.
    pub fn round_in(&self) -> (r: Self)
        ensures
            r@ == self@,
    {
        let min_x = self.min.x.ceil();
        let min_y = self.min.y.ceil();
        let min_z = self.min.z.ceil();
        let max_x = self.max.x.floor();
        let max_y = self.max.y.floor();
        let max_z = self.max.z.floor();
        TypedBox3D::new(TypedPoint3D::new(min_x, min_y, min_z), TypedPoint3D::new(max_x, max_y, max_z))
    }

    /// Return a box3d with faces/edges rounded to integer coordinates, such that
    /// the original box3d is contained in the resulting box3d: the minimum corner
    /// is rounded down and the maximum corner up.
    pub fn round_out(&self) -> (r: Self)
        ensures
            r@ == self@,
    {
        let min_x = self.min.x.floor();
        let min_y = self.min.y.floor();
        let min_z = self.min.z.floor();
        let max_x = self.max.x.ceil();
        let max_y = self.max.y.ceil();
        let max_z = self.max.z.ceil();
        TypedBox3D::new(TypedPoint3D::new(min_x, min_y, min_z), TypedPoint3D::new(max_x, max_y, max_z))
    }

    /// Cast into an `usize` box3d; every coordinate must be a `usize`.
    pub fn to_usize(&self) -> (r: TypedBox3D<usize, U>)
        requires
            self@.fits::<usize>(),
        ensures
            r@ == self@,
    {
        self.cast()
    }

    /// Cast into an `u32` box3d; every coordinate must be a `u32`.
    pub fn to_u32(&self) -> (r: TypedBox3D<u32, U>)
        requires
            self@.fits::<u32>(),
        ensures
            r@ == self@,
    {
        self.cast()
    }

    /// Cast into an `i32` box3d; every coordinate must be an `i32`.
    pub fn to_i32(&self) -> (r: TypedBox3D<i32, U>)
        requires
            self@.fits::<i32>(),
        ensures
            r@ == self@,
    {
        self.cast()
    }

    /// Cast into an `i64` box3d; every coordinate must be an `i64`.
    pub fn to_i64(&self) -> (r: TypedBox3D<i64, U>)
        requires
            self@.fits::<i64>(),
        ensures
            r@ == self@,
    {
        self.cast()
    }
}

impl<T: Coord, U> Mul<T> for TypedBox3D<T, U> {
    type Output = Self;

    /// Both corners multiplied by `scale`.
    fn mul(self, scale: T) -> (r: Self)
        ensures
            r@ == self@.scaled_by(scale.val()),
    {
        let r = TypedBox3D::new(self.min.mul_scalar(scale), self.max.mul_scalar(scale));
        proof {
            Self::lemma_from_view(r, self@.scaled_by(scale.val()));
        }
        r
    }
}

impl<T: Coord, U> vstd::std_specs::ops::MulSpecImpl<T> for TypedBox3D<T, U> {
    open spec fn obeys_mul_spec() -> bool {
        true
    }

    open spec fn mul_req(self, scale: T) -> bool {
        self@.scaled_by(scale.val()).fits::<T>()
    }

    open spec fn mul_spec(self, scale: T) -> Self {
        Self::from_view(self@.scaled_by(scale.val()))
    }
}

impl<T: Coord, U> Div<T> for TypedBox3D<T, U> {
    type Output = Self;

    /// Both corners divided by `scale`, rounding toward zero.
    fn div(self, scale: T) -> (r: Self)
        ensures
            r@ == self@.divided_by(scale.val()),
    {
        let r = TypedBox3D::new(self.min.div_scalar(scale), self.max.div_scalar(scale));
        proof {
            Self::lemma_from_view(r, self@.divided_by(scale.val()));
        }
        r
    }
}

impl<T: Coord, U> vstd::std_specs::ops::DivSpecImpl<T> for TypedBox3D<T, U> {
    open spec fn obeys_div_spec() -> bool {
        true
    }

    open spec fn div_req(self, scale: T) -> bool {
        scale.val() != 0 && self@.divided_by(scale.val()).fits::<T>()
    }

    open spec fn div_spec(self, scale: T) -> Self {
        Self::from_view(self@.divided_by(scale.val()))
    }
}

impl<T: Coord, U1, U2> Mul<TypedScale<T, U1, U2>> for TypedBox3D<T, U1> {
    type Output = TypedBox3D<T, U2>;

    /// The box in the unit `U2`: both corners multiplied by the scale factor.
    fn mul(self, scale: TypedScale<T, U1, U2>) -> (r: TypedBox3D<T, U2>)
        ensures
            r@ == self@.scaled_by(scale.0.val()),
    {
        let k = scale.get();
        let r = TypedBox3D::new(
            TypedPoint3D::new(self.min.x.mul(k), self.min.y.mul(k), self.min.z.mul(k)),
            TypedPoint3D::new(self.max.x.mul(k), self.max.y.mul(k), self.max.z.mul(k)),
        );
        proof {
            TypedBox3D::<T, U2>::lemma_from_view(r, self@.scaled_by(scale.0.val()));
        }
        r
    }
}

impl<T: Coord, U1, U2> vstd::std_specs::ops::MulSpecImpl<TypedScale<T, U1, U2>> for TypedBox3D<T, U1> {
    open spec fn obeys_mul_spec() -> bool {
        true
    }

    open spec fn mul_req(self, scale: TypedScale<T, U1, U2>) -> bool {
        self@.scaled_by(scale.0.val()).fits::<T>()
    }

    open spec fn mul_spec(self, scale: TypedScale<T, U1, U2>) -> TypedBox3D<T, U2> {
        TypedBox3D::from_view(self@.scaled_by(scale.0.val()))
    }
}

impl<T: Coord, U1, U2> Div<TypedScale<T, U1, U2>> for TypedBox3D<T, U2> {
    type Output = TypedBox3D<T, U1>;

    /// The box in the unit `U1`: both corners divided by the scale factor,
    /// rounding toward zero.
    fn div(self, scale: TypedScale<T, U1, U2>) -> (r: TypedBox3D<T, U1>)
        ensures
            r@ == self@.divided_by(scale.0.val()),
    {
        let k = scale.get();
        let r = TypedBox3D::new(
            TypedPoint3D::new(self.min.x.div(k), self.min.y.div(k), self.min.z.div(k)),
            TypedPoint3D::new(self.max.x.div(k), self.max.y.div(k), self.max.z.div(k)),
        );
        proof {
            TypedBox3D::<T, U1>::lemma_from_view(r, self@.divided_by(scale.0.val()));
        }
        r
    }
}

impl<T: Coord, U1, U2> vstd::std_specs::ops::DivSpecImpl<TypedScale<T, U1, U2>> for TypedBox3D<T, U2> {
    open spec fn obeys_div_spec() -> bool {
        true
    }

    open spec fn div_req(self, scale: TypedScale<T, U1, U2>) -> bool {
        scale.0.val() != 0 && self@.divided_by(scale.0.val()).fits::<T>()
    }

    open spec fn div_spec(self, scale: TypedScale<T, U1, U2>) -> TypedBox3D<T, U1> {
        TypedBox3D::from_view(self@.divided_by(scale.0.val()))
    }
}

impl<T: Coord, U> From<TypedSize3D<T, U>> for TypedBox3D<T, U> {
    /// The box of the given size at offset zero, as `from_size` makes it.
    fn from(b: TypedSize3D<T, U>) -> (r: Self) {
        let r = Self::from_size(b);
        proof {
            b.width.lemma_val_in_range();
            b.height.lemma_val_in_range();
            b.depth.lemma_val_in_range();
            T::lemma_range_holds_small();
            Self::lemma_from_view(r, r@);
        }
        r
    }
}

impl<T: Coord, U> vstd::std_specs::convert::FromSpecImpl<TypedSize3D<T, U>> for TypedBox3D<T, U> {
    open spec fn obeys_from_spec() -> bool {
        true
    }

    open spec fn from_spec(b: TypedSize3D<T, U>) -> Self {
        Self::from_view(Cuboid { min: zero_triple().min_with(b@), max: zero_triple().max_with(b@) })
    }
}

/// Halving a value of `T` gives a value of `T`.
proof fn lemma_fits_toward_zero<T: Coord>(a: int)
    requires
        T::in_range(a),
    ensures
        T::in_range(crate::num::trunc_div(a, 2)),
{
    T::lemma_range_holds_small();
    lemma_trunc_div_toward_zero(a, 2);
    if a >= 0 {
        T::lemma_range_convex(0, a, crate::num::trunc_div(a, 2));
    } else {
        T::lemma_range_convex(a, 0, crate::num::trunc_div(a, 2));
    }
}

/// Shorthand for `TypedBox3D::new(TypedPoint3D::new(x1, y1, z1), TypedPoint3D::new(x2, y2, z2))`.
pub fn box3d<T: Coord, U>(min_x: T, min_y: T, min_z: T, max_x: T, max_y: T, max_z: T) -> (r: TypedBox3D<T, U>)
    ensures
        r.min.x == min_x && r.min.y == min_y && r.min.z == min_z,
        r.max.x == max_x && r.max.y == max_y && r.max.z == max_z,
{
    TypedBox3D::new(TypedPoint3D::new(min_x, min_y, min_z), TypedPoint3D::new(max_x, max_y, max_z))
}

} // verus!
