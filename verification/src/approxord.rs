//! Minimum and maximum of two coordinates, which need only a comparison.

use vstd::prelude::*;

use crate::model::{int_max, int_min};
use crate::num::Coord;

verus! {

/// The smaller of `x` and `y`; `x` when they are equal.
pub fn min<T: Coord>(x: T, y: T) -> (r: T)
    ensures
        r.val() == int_min(x.val(), y.val()),
        r == x || r == y,
{
    if x.le(y) {
        x
    } else {
        y
    }
}

/// The larger of `x` and `y`; `x` when they are equal.
pub fn max<T: Coord>(x: T, y: T) -> (r: T)
    ensures
        r.val() == int_max(x.val(), y.val()),
        r == x || r == y,
{
    if y.le(x) {
        x
    } else {
        y
    }
}

} // verus!
