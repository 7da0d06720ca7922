//! Points, vectors and sizes in three dimensions, tagged with a unit.

use vstd::prelude::*;

use core::marker::PhantomData;

use crate::model::{lerp_triple, lerp_triple_fits, triple, Triple};
use crate::num::Coord;
use crate::UnknownUnit;

verus! {

/// A point in three dimensions, in the unit `U`.
#[derive(Debug, Hash)]
pub struct TypedPoint3D<T, U = UnknownUnit> {
    pub x: T,
    pub y: T,
    pub z: T,
    pub _unit: PhantomData<U>,
}

/// A point with no unit.
pub type Point3D<T> = TypedPoint3D<T, UnknownUnit>;

/// A displacement in three dimensions, in the unit `U`.
#[derive(Debug, Hash)]
pub struct TypedVector3D<T, U = UnknownUnit> {
    pub x: T,
    pub y: T,
    pub z: T,
    pub _unit: PhantomData<U>,
}

/// A vector with no unit.
pub type Vector3D<T> = TypedVector3D<T, UnknownUnit>;

/// The extents of a box along the three axes, in the unit `U`.
#[derive(Debug, Hash)]
pub struct TypedSize3D<T, U = UnknownUnit> {
    pub width: T,
    pub height: T,
    pub depth: T,
    pub _unit: PhantomData<U>,
}

/// A size with no unit.
pub type Size3D<T> = TypedSize3D<T, UnknownUnit>;

impl<T: Coord, U> View for TypedPoint3D<T, U> {
    type V = Triple;

    open spec fn view(&self) -> Triple {
        triple(self.x.val(), self.y.val(), self.z.val())
    }
}

impl<T: Coord, U> View for TypedVector3D<T, U> {
    type V = Triple;

    open spec fn view(&self) -> Triple {
        triple(self.x.val(), self.y.val(), self.z.val())
    }
}

impl<T: Coord, U> View for TypedSize3D<T, U> {
    type V = Triple;

    open spec fn view(&self) -> Triple {
        triple(self.width.val(), self.height.val(), self.depth.val())
    }
}

/// Shorthand for `TypedPoint3D::new(x, y, z)`.
pub fn point3<T: Coord, U>(x: T, y: T, z: T) -> (r: TypedPoint3D<T, U>)
    ensures
        r.x == x && r.y == y && r.z == z,
{
    TypedPoint3D::new(x, y, z)
}

/// Shorthand for `TypedVector3D::new(x, y, z)`.
pub fn vec3<T: Coord, U>(x: T, y: T, z: T) -> (r: TypedVector3D<T, U>)
    ensures
        r.x == x && r.y == y && r.z == z,
{
    TypedVector3D::new(x, y, z)
}

/// Shorthand for `TypedSize3D::new(width, height, depth)`.
pub fn size3<T: Coord, U>(width: T, height: T, depth: T) -> (r: TypedSize3D<T, U>)
    ensures
        r.width == width && r.height == height && r.depth == depth,
{
    TypedSize3D::new(width, height, depth)
}

impl<T: Coord, U> TypedPoint3D<T, U> {
    /// The point whose view is `t`.
    pub open spec fn from_view(t: Triple) -> Self {
        TypedPoint3D { x: T::from_val(t.x), y: T::from_val(t.y), z: T::from_val(t.z), _unit: PhantomData }
    }

    /// A point is determined by its view.
    pub proof fn lemma_from_view(p: Self)
        ensures
            p == Self::from_view(p@),
    {
        p.x.lemma_val_in_range();
        p.y.lemma_val_in_range();
        p.z.lemma_val_in_range();
        T::lemma_from_val(p@.x);
        T::lemma_from_val(p@.y);
        T::lemma_from_val(p@.z);
        T::lemma_val_injective(p.x, T::from_val(p@.x));
        T::lemma_val_injective(p.y, T::from_val(p@.y));
        T::lemma_val_injective(p.z, T::from_val(p@.z));
    }

    /// A triple that fits is the view of the point made from it.
    pub proof fn lemma_view_from_view(t: Triple)
        requires
            t.fits::<T>(),
        ensures
            Self::from_view(t)@ == t,
    {
        T::lemma_from_val(t.x);
        T::lemma_from_val(t.y);
        T::lemma_from_val(t.z);
    }

    pub fn new(x: T, y: T, z: T) -> (r: Self)
        ensures
            r.x == x && r.y == y && r.z == z,
    {
        TypedPoint3D { x, y, z, _unit: PhantomData }
    }

    /// The origin.
    pub fn zero() -> (r: Self)
        ensures
            r@ == triple(0, 0, 0),
    {
        TypedPoint3D::new(T::zero(), T::zero(), T::zero())
    }

    /// The vector from the origin to this point.
    pub fn to_vector(&self) -> (r: TypedVector3D<T, U>)
        ensures
            r.x == self.x && r.y == self.y && r.z == self.z,
    {
        TypedVector3D::new(self.x, self.y, self.z)
    }

    /// The same coordinates without the unit.
    pub fn to_untyped(&self) -> (r: Point3D<T>)
        ensures
            r.x == self.x && r.y == self.y && r.z == self.z,
    {
        TypedPoint3D::new(self.x, self.y, self.z)
    }

    /// The same coordinates tagged with the unit `U`.
    pub fn from_untyped(p: &Point3D<T>) -> (r: Self)
        ensures
            r.x == p.x && r.y == p.y && r.z == p.z,
    {
        TypedPoint3D::new(p.x, p.y, p.z)
    }

    /// The point moved by `v`.
    pub fn add_vector(&self, v: &TypedVector3D<T, U>) -> (r: Self)
        requires
            self@.plus(v@).fits::<T>(),
        ensures
            r@ == self@.plus(v@),
    {
        TypedPoint3D::new(self.x.add(v.x), self.y.add(v.y), self.z.add(v.z))
    }

    /// Every coordinate multiplied by `k`.
    pub fn mul_scalar(&self, k: T) -> (r: Self)
        requires
            self@.scaled(k.val()).fits::<T>(),
        ensures
            r@ == self@.scaled(k.val()),
    {
        TypedPoint3D::new(self.x.mul(k), self.y.mul(k), self.z.mul(k))
    }

    /// Every coordinate divided by `k`, rounding toward zero.
    pub fn div_scalar(&self, k: T) -> (r: Self)
        requires
            k.val() != 0,
            self@.divided(k.val()).fits::<T>(),
        ensures
            r@ == self@.divided(k.val()),
    {
        TypedPoint3D::new(self.x.div(k), self.y.div(k), self.z.div(k))
    }

    /// Linear interpolation between this point and `other`: each coordinate is
    /// `(1 - t) * a + t * b`.
    pub fn lerp(&self, other: Self, t: T) -> (r: Self)
        requires
            lerp_triple_fits::<T>(self@, other@, t.val()),
        ensures
            r@ == lerp_triple(self@, other@, t.val()),
    {
        let one_t = T::one().sub(t);
        TypedPoint3D::new(
            one_t.mul(self.x).add(t.mul(other.x)),
            one_t.mul(self.y).add(t.mul(other.y)),
            one_t.mul(self.z).add(t.mul(other.z)),
        )
    }
}

impl<T: Coord, U> TypedPoint3D<T, U> {
    /// The same point with coordinates of type `T1`, or `None` when a coordinate
    /// does not fit in `T1`.
    pub fn try_cast<T1: Coord>(&self) -> (r: Option<TypedPoint3D<T1, U>>)
        ensures
            r is Some <==> self@.fits::<T1>(),
            r matches Some(q) ==> q@ == self@,
    {
        let x = T1::from_i128(self.x.to_i128());
        let y = T1::from_i128(self.y.to_i128());
        let z = T1::from_i128(self.z.to_i128());
        match (x, y, z) {
            (Some(x), Some(y), Some(z)) => Some(TypedPoint3D::new(x, y, z)),
            _ => None,
        }
    }

    /// The same point with coordinates of type `T1`, each of which must fit.
    pub fn cast<T1: Coord>(&self) -> (r: TypedPoint3D<T1, U>)
        requires
            self@.fits::<T1>(),
        ensures
            r@ == self@,
    {
        let x = T1::from_i128(self.x.to_i128());
        let y = T1::from_i128(self.y.to_i128());
        let z = T1::from_i128(self.z.to_i128());
        TypedPoint3D::new(x.unwrap(), y.unwrap(), z.unwrap())
    }
}

impl<T: Coord, U> TypedVector3D<T, U> {
    pub fn new(x: T, y: T, z: T) -> (r: Self)
        ensures
            r.x == x && r.y == y && r.z == z,
    {
        TypedVector3D { x, y, z, _unit: PhantomData }
    }

    /// The point at this displacement from the origin.
    pub fn to_point(&self) -> (r: TypedPoint3D<T, U>)
        ensures
            r.x == self.x && r.y == self.y && r.z == self.z,
    {
        TypedPoint3D::new(self.x, self.y, self.z)
    }
}

impl<T: Coord, U> TypedSize3D<T, U> {
    pub fn new(width: T, height: T, depth: T) -> (r: Self)
        ensures
            r.width == width && r.height == height && r.depth == depth,
    {
        TypedSize3D { width, height, depth, _unit: PhantomData }
    }

    /// The vector whose components are the width, height and depth.
    pub fn to_vector(&self) -> (r: TypedVector3D<T, U>)
        ensures
            r.x == self.width && r.y == self.height && r.z == self.depth,
    {
        TypedVector3D::new(self.width, self.height, self.depth)
    }
}

impl<T: Coord, U> From<[T; 3]> for TypedPoint3D<T, U> {
    /// The point whose x, y and z are the array's three elements.
    fn from(a: [T; 3]) -> (r: Self) {
        TypedPoint3D::new(a[0], a[1], a[2])
    }
}

impl<T: Coord, U> vstd::std_specs::convert::FromSpecImpl<[T; 3]> for TypedPoint3D<T, U> {
    open spec fn obeys_from_spec() -> bool {
        true
    }

    open spec fn from_spec(a: [T; 3]) -> Self {
        TypedPoint3D { x: a@[0], y: a@[1], z: a@[2], _unit: PhantomData }
    }
}

impl<T: Coord, U> PartialEq for TypedPoint3D<T, U> {
    fn eq(&self, other: &Self) -> (r: bool) {
        self.x.eq(other.x) && self.y.eq(other.y) && self.z.eq(other.z)
    }
}

impl<T: Coord, U> vstd::std_specs::cmp::PartialEqSpecImpl for TypedPoint3D<T, U> {
    open spec fn obeys_eq_spec() -> bool {
        true
    }

    open spec fn eq_spec(&self, other: &Self) -> bool {
        self@ == other@
    }
}

impl<T: Coord, U> PartialEq for TypedVector3D<T, U> {
    fn eq(&self, other: &Self) -> (r: bool) {
        self.x.eq(other.x) && self.y.eq(other.y) && self.z.eq(other.z)
    }
}

impl<T: Coord, U> vstd::std_specs::cmp::PartialEqSpecImpl for TypedVector3D<T, U> {
    open spec fn obeys_eq_spec() -> bool {
        true
    }

    open spec fn eq_spec(&self, other: &Self) -> bool {
        self@ == other@
    }
}

impl<T: Coord, U> PartialEq for TypedSize3D<T, U> {
    fn eq(&self, other: &Self) -> (r: bool) {
        self.width.eq(other.width) && self.height.eq(other.height) && self.depth.eq(other.depth)
    }
}

impl<T: Coord, U> vstd::std_specs::cmp::PartialEqSpecImpl for TypedSize3D<T, U> {
    open spec fn obeys_eq_spec() -> bool {
        true
    }

    open spec fn eq_spec(&self, other: &Self) -> bool {
        self@ == other@
    }
}

impl<T: Copy, U> Clone for TypedPoint3D<T, U> {
    fn clone(&self) -> (r: Self)
        ensures
            r == *self,
    {
        *self
    }
}

impl<T: Copy, U> Copy for TypedPoint3D<T, U> {

}

impl<T: Copy, U> Clone for TypedVector3D<T, U> {
    fn clone(&self) -> (r: Self)
        ensures
            r == *self,
    {
        *self
    }
}

impl<T: Copy, U> Copy for TypedVector3D<T, U> {

}

impl<T: Copy, U> Clone for TypedSize3D<T, U> {
    fn clone(&self) -> (r: Self)
        ensures
            r == *self,
    {
        *self
    }
}

impl<T: Copy, U> Copy for TypedSize3D<T, U> {

}

} // verus!
