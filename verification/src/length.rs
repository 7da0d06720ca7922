//! A one-dimensional distance tagged with a unit.

use vstd::prelude::*;

use core::marker::PhantomData;

use crate::num::Coord;

verus! {

/// A distance along one axis, in the unit `U`.
#[derive(Debug, Hash)]
pub struct Length<T, U>(pub T, pub PhantomData<U>);

impl<T: Coord, U> Length<T, U> {
    pub fn new(x: T) -> (r: Self)
        ensures
            r.0 == x,
    {
        Length(x, PhantomData)
    }

    pub fn get(&self) -> (r: T)
        ensures
            r == self.0,
    {
        self.0
    }
}

impl<T: Copy, U> Clone for Length<T, U> {
    fn clone(&self) -> (r: Self)
        ensures
            r == *self,
    {
        *self
    }
}

impl<T: Copy, U> Copy for Length<T, U> {

}

} // verus!
