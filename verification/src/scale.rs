//! A scale factor that converts lengths from one unit to another.

use vstd::prelude::*;

use core::marker::PhantomData;

use crate::num::Coord;

verus! {

/// A factor that turns values in the unit `Src` into values in the unit `Dst`.
#[derive(Debug, Hash)]
pub struct TypedScale<T, Src, Dst>(pub T, pub PhantomData<(Src, Dst)>);

impl<T: Coord, Src, Dst> TypedScale<T, Src, Dst> {
    pub fn new(x: T) -> (r: Self)
        ensures
            r.0 == x,
    {
        TypedScale(x, PhantomData)
    }

    pub fn get(&self) -> (r: T)
        ensures
            r == self.0,
    {
        self.0
    }
}

impl<T: Copy, Src, Dst> Clone for TypedScale<T, Src, Dst> {
    fn clone(&self) -> (r: Self)
        ensures
            r == *self,
    {
        *self
    }
}

impl<T: Copy, Src, Dst> Copy for TypedScale<T, Src, Dst> {

}

} // verus!
