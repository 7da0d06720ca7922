//! Properties that hold across the operations on boxes, stated over the boxes'
//! mathematical views.

use vstd::prelude::*;

use crate::box3d::TypedBox3D;
use crate::model::{
    int_max, int_min, is_bounding_box, lerp_triple, triple, zero_cuboid, zero_triple, Cuboid, Triple,
};
use crate::num::{trunc_div, Coord};
use crate::point::{TypedPoint3D, TypedSize3D, TypedVector3D};

verus! {

/// Two nonempty boxes whose minimum corners lie below their maximum corners
/// intersect exactly when some point lies in both.
pub proof fn law_intersects_iff_common_point<T: Coord, U>(a: TypedBox3D<T, U>, b: TypedBox3D<T, U>)
    requires
        a@.is_ordered() && !a@.is_empty(),
        b@.is_ordered() && !b@.is_empty(),
    ensures
        a@.intersects(b@) <==> exists|p: Triple| a@.contains(p) && #[trigger] b@.contains(p),
{
    if a@.intersects(b@) {
        let p = triple(
            int_max(a@.min.x, b@.min.x),
            int_min(a@.max.y, b@.max.y),
            int_min(a@.max.z, b@.max.z),
        );
        assert(a@.contains(p) && b@.contains(p));
    }
}

/// Whether two boxes intersect does not depend on their order.
pub proof fn law_intersects_symmetric<T: Coord, U>(a: TypedBox3D<T, U>, b: TypedBox3D<T, U>)
    ensures
        a@.intersects(b@) == b@.intersects(a@),
{
}

/// The intersection of two boxes holds exactly the points that lie in both.
pub proof fn law_intersection_points<T: Coord, U>(
    a: TypedBox3D<T, U>,
    b: TypedBox3D<T, U>,
    p: TypedPoint3D<T, U>,
)
    ensures
        a@.intersection(b@).contains(p@) <==> a@.contains(p@) && b@.contains(p@),
{
}

/// The intersection of two boxes does not depend on their order.
pub proof fn law_intersection_commutes<T: Coord, U>(a: TypedBox3D<T, U>, b: TypedBox3D<T, U>)
    ensures
        a@.intersection(b@) == b@.intersection(a@),
{
}

/// Each box contains its intersection with another box, when the intersection's
/// minimum corner lies at or below its maximum corner.
pub proof fn law_intersection_within_both<T: Coord, U>(a: TypedBox3D<T, U>, b: TypedBox3D<T, U>)
    requires
        a@.intersection(b@).is_ordered(),
    ensures
        a@.contains_box(a@.intersection(b@)),
        b@.contains_box(a@.intersection(b@)),
{
}

/// The union of two boxes contains each of them whose minimum corner lies at or
/// below its maximum corner, and every point of either.
pub proof fn law_union_holds_both<T: Coord, U>(
    a: TypedBox3D<T, U>,
    b: TypedBox3D<T, U>,
    p: TypedPoint3D<T, U>,
)
    ensures
        a@.is_ordered() ==> a@.union(b@).contains_box(a@),
        b@.is_ordered() ==> a@.union(b@).contains_box(b@),
        a@.contains(p@) || b@.contains(p@) ==> a@.union(b@).contains(p@),
{
}

/// The union of two boxes does not depend on their order.
pub proof fn law_union_commutes<T: Coord, U>(a: TypedBox3D<T, U>, b: TypedBox3D<T, U>)
    ensures
        a@.union(b@) == b@.union(a@),
{
}

/// A box is its own intersection and its own union with itself.
pub proof fn law_idempotent<T: Coord, U>(a: TypedBox3D<T, U>)
    ensures
        a@.intersection(a@) == a@,
        a@.union(a@) == a@,
{
}

/// Every box contains itself.
pub proof fn law_contains_box_reflexive<T: Coord, U>(a: TypedBox3D<T, U>)
    ensures
        a@.contains_box(a@),
{
}

/// Every box contains an empty box.
pub proof fn law_contains_empty_box<T: Coord, U>(a: TypedBox3D<T, U>, b: TypedBox3D<T, U>)
    requires
        b@.is_empty(),
    ensures
        a@.contains_box(b@),
{
}

/// An empty box contains no nonempty box.
pub proof fn law_empty_contains_no_nonempty_box<T: Coord, U>(a: TypedBox3D<T, U>, b: TypedBox3D<T, U>)
    requires
        a@.is_empty(),
        !b@.is_empty(),
    ensures
        !a@.contains_box(b@),
{
}

/// A box that contains a point is not empty.
pub proof fn law_box_with_point_is_nonempty<T: Coord, U>(a: TypedBox3D<T, U>, p: TypedPoint3D<T, U>)
    requires
        a@.contains(p@),
    ensures
        !a@.is_empty(),
        a@.is_ordered(),
{
}

/// A point of a box lies in every box that contains that box.
pub proof fn law_contains_box_keeps_points<T: Coord, U>(
    a: TypedBox3D<T, U>,
    b: TypedBox3D<T, U>,
    p: TypedPoint3D<T, U>,
)
    requires
        a@.contains_box(b@),
        b@.contains(p@),
    ensures
        a@.contains(p@),
{
}

/// Containment of boxes is transitive.
pub proof fn law_contains_box_transitive<T: Coord, U>(
    a: TypedBox3D<T, U>,
    b: TypedBox3D<T, U>,
    c: TypedBox3D<T, U>,
)
    requires
        a@.contains_box(b@),
        b@.contains_box(c@),
    ensures
        a@.contains_box(c@),
{
}

/// The bounding box of the points covers each of them, and any box that covers
/// all the points, faces included, also covers the bounding box: it is the
/// smallest such box.
pub proof fn law_bounding_box_is_smallest(pts: Seq<Triple>, r: Cuboid, c: Cuboid)
    requires
        is_bounding_box(pts, r),
        forall|i: int| 0 <= i < pts.len() ==> #[trigger] c.covers(pts[i]),
    ensures
        forall|i: int| 0 <= i < pts.len() ==> #[trigger] r.covers(pts[i]),
        c.min.le(r.min),
        r.max.le(c.max),
        r.is_ordered(),
{
    let ix = choose|i: int| 0 <= i < pts.len() && #[trigger] pts[i].x == r.min.x;
    let iy = choose|i: int| 0 <= i < pts.len() && #[trigger] pts[i].y == r.min.y;
    let iz = choose|i: int| 0 <= i < pts.len() && #[trigger] pts[i].z == r.min.z;
    let jx = choose|i: int| 0 <= i < pts.len() && #[trigger] pts[i].x == r.max.x;
    let jy = choose|i: int| 0 <= i < pts.len() && #[trigger] pts[i].y == r.max.y;
    let jz = choose|i: int| 0 <= i < pts.len() && #[trigger] pts[i].z == r.max.z;
    assert(c.covers(pts[ix]) && c.covers(pts[iy]) && c.covers(pts[iz]));
    assert(c.covers(pts[jx]) && c.covers(pts[jy]) && c.covers(pts[jz]));
    assert(r.covers(pts[ix]));
}

/// Translating a box keeps its size, and a point lies in the translated box
/// exactly when the point moved back lies in the original box.
pub proof fn law_translate<T: Coord, U>(
    a: TypedBox3D<T, U>,
    v: TypedVector3D<T, U>,
    p: TypedPoint3D<T, U>,
)
    ensures
        a@.translate(v@).size() == a@.size(),
        a@.translate(v@).contains(p@) <==> a@.contains(p@.minus(v@)),
{
}

/// Translating a box moves its center by the same vector, when on each axis the
/// sum of the corner coordinates is even (otherwise halving toward zero may round
/// the two centers differently).
pub proof fn law_translate_center<T: Coord, U>(a: TypedBox3D<T, U>, v: TypedVector3D<T, U>)
    requires
        (a@.min.x + a@.max.x) % 2 == 0,
        (a@.min.y + a@.max.y) % 2 == 0,
        (a@.min.z + a@.max.z) % 2 == 0,
    ensures
        a@.translate(v@).center() == a@.center().plus(v@),
{
    lemma_half_shift(a@.min.x + a@.max.x, v@.x);
    lemma_half_shift(a@.min.y + a@.max.y, v@.y);
    lemma_half_shift(a@.min.z + a@.max.z, v@.z);
    assert(a@.translate(v@).min.plus(a@.translate(v@).max) == a@.min.plus(a@.max).plus(
        triple(2 * v@.x, 2 * v@.y, 2 * v@.z),
    ));
}

proof fn lemma_half_shift(s: int, v: int)
    requires
        s % 2 == 0,
    ensures
        trunc_div(s + 2 * v, 2) == trunc_div(s, 2) + v,
{
    let h = s / 2;
    assert(s == 2 * h);
    lemma_half_of_even(h);
    lemma_half_of_even(h + v);
    assert(s + 2 * v == 2 * (h + v));
}

proof fn lemma_half_of_even(h: int)
    ensures
        trunc_div(2 * h, 2) == h,
{
    if h >= 0 {
        assert((2 * h) / 2 == h);
    } else {
        assert((-(2 * h)) / 2 == -h);
    }
}

/// Interpolating between two boxes interpolates their sizes the same way.
pub proof fn law_lerp_size<T: Coord, U>(a: TypedBox3D<T, U>, b: TypedBox3D<T, U>, t: T)
    ensures
        a@.lerp(b@, t.val()).size() == lerp_triple(a@.size(), b@.size(), t.val()),
{
    let k = t.val();
    assert(a@.lerp(b@, k).size() == lerp_triple(a@.size(), b@.size(), k)) by (nonlinear_arith);
}

/// Dividing a scaled box by the same nonzero factor gives the box back.
pub proof fn law_scale_then_divide<T: Coord, U>(a: TypedBox3D<T, U>, k: T)
    requires
        k.val() != 0,
    ensures
        a@.scaled_by(k.val()).divided_by(k.val()) == a@,
{
    let c = a@;
    let kk = k.val();
    lemma_mul_trunc_div(c.min.x, kk);
    lemma_mul_trunc_div(c.min.y, kk);
    lemma_mul_trunc_div(c.min.z, kk);
    lemma_mul_trunc_div(c.max.x, kk);
    lemma_mul_trunc_div(c.max.y, kk);
    lemma_mul_trunc_div(c.max.z, kk);
}

proof fn lemma_mul_trunc_div(x: int, k: int)
    requires
        k != 0,
    ensures
        trunc_div(x * k, k) == x,
{
    let ax = if x < 0 { -x } else { x };
    let ak = if k < 0 { -k } else { k };
    assert(crate::num::abs_int(x * k) == ax * ak) by (nonlinear_arith)
        requires
            ax == (if x < 0 { -x } else { x }),
            ak == (if k < 0 { -k } else { k }),
    ;
    assert((ax * ak) / ak == ax) by (nonlinear_arith)
        requires
            ak > 0,
            ax >= 0,
    ;
    assert((x * k < 0) == ((x < 0) != (k < 0)) || x == 0) by (nonlinear_arith)
        requires
            k != 0,
    ;
}

/// Inflating a box by `d` on each side grows each extent by twice `d` and keeps
/// the center where it was.
pub proof fn law_inflate<T: Coord, U>(a: TypedBox3D<T, U>, width: T, height: T, depth: T)
    ensures
        a@.inflate(triple(width.val(), height.val(), depth.val())).size() == triple(
            a@.size().x + 2 * width.val(),
            a@.size().y + 2 * height.val(),
            a@.size().z + 2 * depth.val(),
        ),
        a@.inflate(triple(width.val(), height.val(), depth.val())).center() == a@.center(),
{
    let d = triple(width.val(), height.val(), depth.val());
    assert(a@.inflate(d).min.plus(a@.inflate(d).max) == a@.min.plus(a@.max));
}

/// Interpolating at zero gives the first box, and at one the second.
pub proof fn law_lerp_ends<T: Coord, U>(a: TypedBox3D<T, U>, b: TypedBox3D<T, U>)
    ensures
        a@.lerp(b@, 0) == a@,
        a@.lerp(b@, 1) == b@,
{
    assert(a@.lerp(b@, 0) == a@) by (nonlinear_arith);
    assert(a@.lerp(b@, 1) == b@) by (nonlinear_arith);
}

/// The center of a box whose minimum lies at or below its maximum is within the
/// box, faces included.
pub proof fn law_center_within<T: Coord, U>(a: TypedBox3D<T, U>)
    requires
        a@.is_ordered(),
    ensures
        a@.covers(a@.center()),
{
    lemma_half_between(a@.min.x, a@.max.x);
    lemma_half_between(a@.min.y, a@.max.y);
    lemma_half_between(a@.min.z, a@.max.z);
}

proof fn lemma_half_between(lo: int, hi: int)
    requires
        lo <= hi,
    ensures
        lo <= trunc_div(lo + hi, 2) <= hi,
{
    let s = lo + hi;
    if s >= 0 {
        assert(lo <= s / 2 <= hi) by (nonlinear_arith)
            requires
                s == lo + hi,
                lo <= hi,
                s >= 0,
        ;
    } else {
        assert(lo <= -((-s) / 2) <= hi) by (nonlinear_arith)
            requires
                s == lo + hi,
                lo <= hi,
                s < 0,
        ;
    }
}

/// The volume is the area of the x-y face times the depth.
pub proof fn law_volume_is_area_times_depth<T: Coord, U>(a: TypedBox3D<T, U>)
    ensures
        a@.volume() == a@.xy_area() * a@.size().z,
{
}

/// The zero box is empty and has no volume.
pub proof fn law_zero_is_empty()
    ensures
        zero_cuboid().is_empty(),
        zero_cuboid().volume() == 0,
{
}

/// A box made from a size with no negative extent starts at the origin and has
/// that size.
pub proof fn law_from_size<T: Coord, U>(s: TypedSize3D<T, U>)
    requires
        zero_triple().le(s@),
    ensures
        (Cuboid { min: zero_triple().min_with(s@), max: zero_triple().max_with(s@) }).min
            == zero_triple(),
        (Cuboid { min: zero_triple().min_with(s@), max: zero_triple().max_with(s@) }).size() == s@,
{
}

/// Scaling by per-axis factors multiplies each corner coordinate by the factor of
/// its own axis; scaling every axis by the same factor is multiplying the box by it.
pub proof fn law_scale_per_axis<T: Coord, U>(a: TypedBox3D<T, U>, x: T, y: T, z: T)
    ensures
        a@.scale(triple(x.val(), y.val(), z.val())).min.x == a@.min.x * x.val(),
        a@.scale(triple(x.val(), y.val(), z.val())).min.y == a@.min.y * y.val(),
        a@.scale(triple(x.val(), y.val(), z.val())).min.z == a@.min.z * z.val(),
        a@.scale(triple(x.val(), y.val(), z.val())).max.x == a@.max.x * x.val(),
        a@.scale(triple(x.val(), y.val(), z.val())).max.y == a@.max.y * y.val(),
        a@.scale(triple(x.val(), y.val(), z.val())).max.z == a@.max.z * z.val(),
        a@.scale(triple(x.val(), x.val(), x.val())) == a@.scaled_by(x.val()),
{
}

/// The union encloses the corners of both boxes, and it is the smallest box that
/// does: any box whose corners enclose both boxes' corners encloses the union's.
pub proof fn law_union_is_smallest_enclosing<T: Coord, U>(
    a: TypedBox3D<T, U>,
    b: TypedBox3D<T, U>,
    c: Cuboid,
)
    ensures
        a@.union(b@).min.le(a@.min) && a@.union(b@).min.le(b@.min),
        a@.max.le(a@.union(b@).max) && b@.max.le(a@.union(b@).max),
        c.min.le(a@.min) && c.min.le(b@.min) && a@.max.le(c.max) && b@.max.le(c.max) ==> c.min.le(
            a@.union(b@).min,
        ) && a@.union(b@).max.le(c.max),
{
}

/// The intersection lies within the corners of both boxes, whatever they are: on
/// each axis its minimum is the larger of the two minimums and its maximum the
/// smaller of the two maximums.
pub proof fn law_intersection_corners<T: Coord, U>(a: TypedBox3D<T, U>, b: TypedBox3D<T, U>)
    ensures
        a@.min.le(a@.intersection(b@).min) && b@.min.le(a@.intersection(b@).min),
        a@.intersection(b@).max.le(a@.max) && a@.intersection(b@).max.le(b@.max),
        a@.intersection(b@).min.x == a@.min.x || a@.intersection(b@).min.x == b@.min.x,
        a@.intersection(b@).min.y == a@.min.y || a@.intersection(b@).min.y == b@.min.y,
        a@.intersection(b@).min.z == a@.min.z || a@.intersection(b@).min.z == b@.min.z,
        a@.intersection(b@).max.x == a@.max.x || a@.intersection(b@).max.x == b@.max.x,
        a@.intersection(b@).max.y == a@.max.y || a@.intersection(b@).max.y == b@.max.y,
        a@.intersection(b@).max.z == a@.max.z || a@.intersection(b@).max.z == b@.max.z,
{
}

/// Each face area depends only on the two extents of its face: times the third
/// extent it gives the volume, and boxes that agree on those two extents have the
/// same area.
pub proof fn law_face_areas<T: Coord, U>(a: TypedBox3D<T, U>, b: TypedBox3D<T, U>)
    ensures
        a@.xy_area() * a@.size().z == a@.volume(),
        a@.yz_area() * a@.size().x == a@.volume(),
        a@.xz_area() * a@.size().y == a@.volume(),
        a@.size().x == b@.size().x && a@.size().y == b@.size().y ==> a@.xy_area() == b@.xy_area(),
        a@.size().y == b@.size().y && a@.size().z == b@.size().z ==> a@.yz_area() == b@.yz_area(),
        a@.size().x == b@.size().x && a@.size().z == b@.size().z ==> a@.xz_area() == b@.xz_area(),
{
    let s = a@.size();
    assert(s.z * s.y * s.x == s.x * s.y * s.z) by (nonlinear_arith);
    assert(s.z * s.x * s.y == s.x * s.y * s.z) by (nonlinear_arith);
}

/// A box is empty exactly when it has no volume.
pub proof fn law_empty_iff_no_volume<T: Coord, U>(a: TypedBox3D<T, U>)
    ensures
        a@.is_empty() <==> a@.volume() == 0,
{
    let s = a@.size();
    assert((s.x * s.y * s.z == 0) <==> (s.x == 0 || s.y == 0 || s.z == 0)) by (nonlinear_arith);
}

/// Translating moves each corner coordinate by the vector's component on its axis.
pub proof fn law_translate_corners<T: Coord, U>(a: TypedBox3D<T, U>, v: TypedVector3D<T, U>)
    ensures
        a@.translate(v@).min == triple(a@.min.x + v@.x, a@.min.y + v@.y, a@.min.z + v@.z),
        a@.translate(v@).max == triple(a@.max.x + v@.x, a@.max.y + v@.y, a@.max.z + v@.z),
{
}

/// Inflating lowers each minimum and raises each maximum by the amount given for
/// its own axis.
pub proof fn law_inflate_corners<T: Coord, U>(a: TypedBox3D<T, U>, width: T, height: T, depth: T)
    ensures
        a@.inflate(triple(width.val(), height.val(), depth.val())).min == triple(
            a@.min.x - width.val(),
            a@.min.y - height.val(),
            a@.min.z - depth.val(),
        ),
        a@.inflate(triple(width.val(), height.val(), depth.val())).max == triple(
            a@.max.x + width.val(),
            a@.max.y + height.val(),
            a@.max.z + depth.val(),
        ),
{
}

/// Twice the center is the sum of the corners, up to the one unit lost when an
/// odd sum is halved.
pub proof fn law_center_is_midpoint<T: Coord, U>(a: TypedBox3D<T, U>)
    ensures
        -1 <= a@.min.x + a@.max.x - 2 * a@.center().x <= 1,
        -1 <= a@.min.y + a@.max.y - 2 * a@.center().y <= 1,
        -1 <= a@.min.z + a@.max.z - 2 * a@.center().z <= 1,
{
    lemma_twice_half(a@.min.x + a@.max.x);
    lemma_twice_half(a@.min.y + a@.max.y);
    lemma_twice_half(a@.min.z + a@.max.z);
}

proof fn lemma_twice_half(s: int)
    ensures
        -1 <= s - 2 * trunc_div(s, 2) <= 1,
{
    if s >= 0 {
        assert(0 <= s - 2 * (s / 2) <= 1);
    } else {
        assert(-1 <= s + 2 * ((-s) / 2) <= 0);
    }
}

} // verus!
