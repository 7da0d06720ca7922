//! Axis-aligned boxes in three dimensions over integer coordinates, with the
//! points, vectors, sizes and lengths they are built from.

pub mod approxord;
pub mod box3d;
pub mod laws;
pub mod length;
pub mod model;
pub mod num;
pub mod point;
pub mod scale;

use vstd::prelude::*;

verus! {

/// The unit of values whose unit is not known.
#[derive(Clone, Copy, Debug, Hash, PartialEq, Eq)]
pub struct UnknownUnit;

} // verus!
