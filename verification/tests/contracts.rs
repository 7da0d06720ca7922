use euclid::box3d::{box3d, Box3D, TypedBox3D};
use euclid::length::Length;
use euclid::point::{point3, size3, vec3, Point3D};
use euclid::scale::TypedScale;
use euclid::UnknownUnit;

fn cube(lo: i64, hi: i64) -> Box3D<i64> {
    Box3D::new(point3(lo, lo, lo), point3(hi, hi, hi))
}

#[test]
fn from_points_takes_extremes_of_many_points() {
    let b: Box3D<i64> = Box3D::from_points(&[
        point3(3, -7, 12),
        point3(-4, 9, 1),
        point3(8, 2, -5),
    ]);
    assert!(b.min == point3(-4, -7, -5));
    assert!(b.max == point3(8, 9, 12));
}

#[test]
fn from_points_of_one_point_or_none() {
    let one: Box3D<i64> = Box3D::from_points(&[point3(3, 4, 5)]);
    assert!(one.min == point3(3, 4, 5) && one.max == point3(3, 4, 5));
    let none: Box3D<i64> = Box3D::from_points(&[]);
    assert!(none == Box3D::zero());
}

#[test]
fn contains_takes_left_top_and_front_faces() {
    let b = cube(0, 10);
    assert!(b.contains(&point3(0, 5, 5)));
    assert!(!b.contains(&point3(10, 5, 5)));
    assert!(b.contains(&point3(5, 10, 5)));
    assert!(!b.contains(&point3(5, 0, 5)));
    assert!(b.contains(&point3(5, 5, 10)));
    assert!(!b.contains(&point3(5, 5, 0)));
    assert!(b.contains(&point3(0, 10, 10)));
    assert!(!b.contains(&point3(-1, 5, 5)));
    assert!(!b.contains(&point3(5, 11, 5)));
}

#[test]
fn contains_box_cases() {
    let big = cube(-20, 20);
    let small = Box3D::new(point3(-14, -16, -19), point3(6, 17, 2));
    assert!(big.contains_box(&small));
    assert!(!small.contains_box(&big));
    let flat: Box3D<i64> = Box3D::new(point3(100, 100, 5), point3(200, 200, 5));
    assert!(small.contains_box(&flat));
    assert!(!flat.contains_box(&small));
    assert!(big.contains_box(&big));
}

#[test]
fn inflate_moves_each_axis_by_its_own_amount() {
    let b: Box3D<i64> = Box3D::new(point3(0, 10, 20), point3(1, 30, 60));
    let i = b.inflate(1, 2, 3);
    assert!(i.min == point3(-1, 8, 17));
    assert!(i.max == point3(2, 32, 63));
    let t = b.inflate_typed(Length::new(1), Length::new(2), Length::new(3));
    assert!(t == i);
}

#[test]
fn translate_moves_both_corners() {
    let b: Box3D<i64> = Box3D::from_size(size3(16, 16, 200));
    let t = b.translate(&vec3(10, 2, 9));
    assert!(t.min == point3(10, 2, 9));
    assert!(t.max == point3(26, 18, 209));
    assert!(t.center() == point3(18, 10, 109));
    assert!(t.size() == b.size());
}

#[test]
fn scale_multiplies_each_axis() {
    let b = cube(-10, 10);
    let s = b.scale(2, 3, 4);
    assert!(s.min == point3(-20, -30, -40));
    assert!(s.max == point3(20, 30, 40));
}

#[test]
fn lerp_ends_are_the_boxes() {
    let a = cube(-20, -10);
    let b = cube(10, 20);
    assert!(a.lerp(b, 0) == a);
    assert!(a.lerp(b, 1) == b);
    let m = a.lerp(b, 2);
    assert!(m.min == point3(40, 40, 40));
}

#[test]
fn center_divides_toward_zero() {
    let b: Box3D<i64> = Box3D::new(point3(-1, -3, 1), point3(0, 0, 2));
    assert!(b.center() == point3(0, -1, 1));
}

#[test]
fn union_and_intersection_do_not_depend_on_order() {
    let a: Box3D<i64> = Box3D::new(point3(-3, 0, 2), point3(5, 7, 9));
    let b: Box3D<i64> = Box3D::new(point3(1, -4, 4), point3(8, 3, 6));
    assert!(a.union(&b) == b.union(&a));
    assert!(a.intersection(&b) == b.intersection(&a));
    assert!(a.intersects(&b) && b.intersects(&a));
    let u = a.union(&b);
    assert!(u.contains_box(&a) && u.contains_box(&b));
    let i = a.intersection(&b);
    assert!(a.contains_box(&i) && b.contains_box(&i));
    assert!(i == Box3D::new(point3(1, 0, 4), point3(5, 3, 6)));
}

#[test]
fn touching_boxes_do_not_intersect() {
    let a = cube(0, 10);
    let b: Box3D<i64> = Box3D::new(point3(10, 0, 0), point3(20, 10, 10));
    assert!(!a.intersects(&b));
    assert!(a.try_intersection(&b).is_none());
}

#[test]
fn areas_and_volume_of_uneven_box() {
    let b: Box3D<i32> = Box3D::new(point3(1, 2, 3), point3(3, 7, 15));
    assert!(b.volume() == 2 * 5 * 12);
    assert!(b.xy_area() == 10);
    assert!(b.yz_area() == 60);
    assert!(b.xz_area() == 24);
}

#[test]
fn empty_box_detection() {
    assert!(Box3D::<i64>::zero().is_empty());
    assert!(!cube(0, 1).is_empty());
    let inverted: Box3D<i64> = Box3D::new(point3(5, 5, 5), point3(1, 1, 1));
    assert!(!inverted.is_empty());
}

#[test]
fn casts_keep_values_that_fit() {
    let b: Box3D<i64> = Box3D::new(point3(1, 2, 3), point3(4, 5, 6));
    let u = b.to_u32();
    assert!(u.min == point3(1u32, 2, 3) && u.max == point3(4u32, 5, 6));
    let s = b.to_usize();
    assert!(s.max == point3(4usize, 5, 6));
    let i = b.to_i32();
    assert!(i.min == point3(1i32, 2, 3));
    let back = i.to_i64();
    assert!(back == b);
    let c: TypedBox3D<i32, UnknownUnit> = b.cast();
    assert!(c == i);
}

#[test]
fn try_cast_refuses_values_that_do_not_fit() {
    let neg: Box3D<i64> = Box3D::new(point3(-1, 2, 3), point3(4, 5, 6));
    assert!(neg.try_cast::<u32>().is_none());
    assert!(neg.try_cast::<i32>().is_some());
    let big: Box3D<i64> = Box3D::new(point3(0, 0, 0), point3(3_000_000_000, 1, 1));
    assert!(big.try_cast::<i32>().is_none());
    assert!(big.try_cast::<u32>().unwrap().max.x == 3_000_000_000u32);
    let top: Box3D<u32> = Box3D::new(point3(0, 0, 0), point3(u32::MAX, 1, 1));
    assert!(top.try_cast::<i32>().is_none());
    assert!(top.try_cast::<i64>().unwrap().max.x == 4_294_967_295i64);
}

#[test]
fn rounding_keeps_integer_boxes() {
    let b: Box3D<i64> = Box3D::new(point3(-25, -40, -70), point3(60, 36, 89));
    assert!(b.round() == b);
    assert!(b.round_in() == b);
    assert!(b.round_out() == b);
}

#[test]
fn operators_scale_and_divide() {
    let b = cube(-10, 10);
    assert!(b * 3 == cube(-30, 30));
    assert!(b / 3 == cube(-3, 3));
    let s: TypedScale<i64, UnknownUnit, UnknownUnit> = TypedScale::new(2);
    assert!(b * s == cube(-20, 20));
    assert!(b / s == cube(-5, 5));
}

#[test]
fn from_size_trait_and_negative_sizes() {
    let b: Box3D<i64> = Box3D::from(size3(3, -4, 5));
    assert!(b.min == point3(0, -4, 0));
    assert!(b.max == point3(3, 0, 5));
}

#[test]
fn typed_getters_and_untyped_round_trip() {
    let b: Box3D<i64> = box3d(1, 2, 3, 4, 5, 6);
    assert!(b.min_x_typed().get() == 1 && b.min_y_typed().get() == 2 && b.min_z_typed().get() == 3);
    assert!(b.max_x_typed().get() == 4 && b.max_y_typed().get() == 5 && b.max_z_typed().get() == 6);
    let u = b.to_untyped();
    assert!(Box3D::from_untyped(&u) == b);
}

#[test]
fn point_in_inner_box_is_in_outer_box() {
    let outer = cube(-20, 20);
    let inner: Box3D<i64> = Box3D::new(point3(-5, -5, -5), point3(5, 5, 5));
    let p: Point3D<i64> = point3(4, -4, 0);
    assert!(outer.contains_box(&inner));
    assert!(inner.contains(&p));
    assert!(outer.contains(&p));
}

#[test]
fn translation_moves_center_of_even_box() {
    let b: Box3D<i64> = Box3D::new(point3(-4, 0, 2), point3(10, 6, 8));
    let v = vec3(3, -7, 5);
    let c = b.center();
    let t = b.translate(&v);
    assert!(t.center() == point3(c.x + 3, c.y - 7, c.z + 5));
}

#[test]
fn scaling_then_dividing_gives_the_box_back() {
    let b: Box3D<i64> = Box3D::new(point3(-7, 3, -1), point3(5, 9, 4));
    assert!((b * -3) / -3 == b);
}

#[test]
fn lerp_interpolates_sizes() {
    let a: Box3D<i64> = Box3D::new(point3(0, 0, 0), point3(2, 4, 6));
    let b: Box3D<i64> = Box3D::new(point3(10, 10, 10), point3(20, 30, 40));
    let m = a.lerp(b, 3);
    let sa = a.size();
    let sb = b.size();
    assert!(m.size() == size3(-2 * sa.width + 3 * sb.width, -2 * sa.height + 3 * sb.height, -2 * sa.depth + 3 * sb.depth));
}

#[test]
fn intersecting_boxes_share_a_point() {
    let a: Box3D<i64> = Box3D::new(point3(0, 0, 0), point3(5, 5, 5));
    let b: Box3D<i64> = Box3D::new(point3(4, 4, 4), point3(9, 9, 9));
    assert!(a.intersects(&b));
    let p = point3(4, 5, 5);
    assert!(a.contains(&p) && b.contains(&p));
    assert!(a.intersection(&b).contains(&p));
}

#[test]
fn empty_box_contains_no_nonempty_box() {
    let zero = Box3D::<i64>::zero();
    let inverted: Box3D<i64> = Box3D::new(point3(0, 0, 0), point3(-1, -1, -1));
    assert!(!zero.contains_box(&inverted));
    assert!(!zero.contains_box(&cube(0, 1)));
    assert!(zero.contains_box(&zero));
    assert!(cube(-5, 5).contains_box(&zero));
}

#[test]
fn boxes_over_other_integer_types() {
    let small: Box3D<u8> = Box3D::new(point3(1, 2, 3), point3(10, 20, 30));
    assert!(small.xy_area() == 162);
    assert!(small.try_cast::<u16>().unwrap().volume() == 4374);
    assert!(small.try_cast::<i8>().unwrap().max == point3(10i8, 20, 30));
    let wide: Box3D<i128> = Box3D::new(point3(-1, 0, 0), point3(1 << 70, 1, 1));
    assert!(wide.try_cast::<u64>().is_none());
    assert!(wide.try_cast::<i64>().is_none());
    let signed: Box3D<i16> = Box3D::new(point3(-300, 0, 0), point3(300, 1, 1));
    assert!(signed.try_cast::<i8>().is_none());
    assert!(signed.try_cast::<isize>().unwrap().size().width == 600);
    let unsigned: Box3D<u64> = Box3D::new(point3(0, 0, 0), point3(u64::MAX, 1, 1));
    assert!(unsigned.try_cast::<i128>().unwrap().max.x == u64::MAX as i128);
}
