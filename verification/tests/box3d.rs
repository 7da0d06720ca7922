use euclid::box3d::Box3D;
use euclid::point::{point3, Point3D};
use euclid::point::{size3, vec3};

#[test]
fn test_new() {
    let b: Box3D<i64> = Box3D::new(point3(-1, -1, -1), point3(1, 1, 1));
    assert!(b.min.x == -1);
    assert!(b.min.y == -1);
    assert!(b.min.z == -1);
    assert!(b.max.x == 1);
    assert!(b.max.y == 1);
    assert!(b.max.z == 1);
}

#[test]
fn test_size() {
    let b: Box3D<i64> = Box3D::new(point3(-10, -10, -10), point3(10, 10, 10));
    assert!(b.size().width == 20);
    assert!(b.size().height == 20);
    assert!(b.size().depth == 20);
}

#[test]
fn test_center() {
    let b: Box3D<i64> = Box3D::new(point3(-10, -10, -10), point3(10, 10, 10));
    assert!(b.center() == Point3D::zero());
}

#[test]
fn test_volume() {
    let b: Box3D<i64> = Box3D::new(point3(-10, -10, -10), point3(10, 10, 10));
    assert!(b.volume() == 8000);
}

#[test]
fn test_area() {
    let b: Box3D<i64> = Box3D::new(point3(-10, -10, -10), point3(10, 10, 10));
    assert!(b.xy_area() == 400);
    assert!(b.yz_area() == 400);
    assert!(b.xz_area() == 400);
}

#[test]
fn test_from_size() {
    let b: Box3D<i64> = Box3D::from_size(size3(30, 40, 50));
    assert!(b.min == Point3D::zero());
    assert!(b.size().width == 30);
    assert!(b.size().height == 40);
    assert!(b.size().depth == 50);
}

#[test]
fn test_union() {
    let b1: Box3D<i64> = Box3D::from_points(&[point3(-20, -20, -20), point3(0, 20, 20)]);
    let b2: Box3D<i64> = Box3D::from_points(&[point3(0, 20, 20), point3(20, -20, -20)]);
    let b = b1.union(&b2);
    assert!(b.max_x() == 20);
    assert!(b.max_y() == 20);
    assert!(b.max_z() == 20);
    assert!(b.min_x() == -20);
    assert!(b.min_y() == -20);
    assert!(b.min_z() == -20);
    assert!(b.volume() == (40 * 40 * 40));
}

#[test]
fn test_intersects() {
    let b1: Box3D<i64> = Box3D::from_points(&[point3(-15, -20, -20), point3(10, 20, 20)]);
    let b2: Box3D<i64> = Box3D::from_points(&[point3(-10, 20, 20), point3(15, -20, -20)]);
    assert!(b1.intersects(&b2));
}

#[test]
fn test_intersection() {
    let b1: Box3D<i64> = Box3D::from_points(&[point3(-15, -20, -20), point3(10, 20, 20)]);
    let b2: Box3D<i64> = Box3D::from_points(&[point3(-10, 20, 20), point3(15, -20, -20)]);
    let b = b1.intersection(&b2);
    assert!(b.max_x() == 10);
    assert!(b.max_y() == 20);
    assert!(b.max_z() == 20);
    assert!(b.min_x() == -10);
    assert!(b.min_y() == -20);
    assert!(b.min_z() == -20);
    assert!(b.volume() == (20 * 40 * 40));
}

#[test]
fn test_try_intersection() {
    let b1: Box3D<i64> = Box3D::from_points(&[point3(-15, -20, -20), point3(10, 20, 20)]);
    let b2: Box3D<i64> = Box3D::from_points(&[point3(-10, 20, 20), point3(15, -20, -20)]);
    assert!(b1.try_intersection(&b2).is_some());

    let b1: Box3D<i64> = Box3D::from_points(&[point3(-15, -20, -20), point3(-10, 20, 20)]);
    let b2: Box3D<i64> = Box3D::from_points(&[point3(10, 20, 20), point3(15, -20, -20)]);
    assert!(b1.try_intersection(&b2).is_none());
}

#[test]
fn test_zero() {
    let b = Box3D::<i64>::zero();
    assert!(b.max_x() == 0);
    assert!(b.max_y() == 0);
    assert!(b.max_z() == 0);
    assert!(b.min_x() == 0);
    assert!(b.min_y() == 0);
    assert!(b.min_z() == 0);
}

#[test]
fn test_inflate() {
    let b: Box3D<i64> = Box3D::from_points(&[point3(-20, -20, -20), point3(20, 20, 20)]);
    let b = b.inflate(10, 5, 2);
    assert!(b.size().width == 60);
    assert!(b.size().height == 50);
    assert!(b.size().depth == 44);
    assert!(b.center() == Point3D::zero());
}

#[test]
fn test_is_empty() {
    for i in 0..3 {
        let mut coords_neg: [i64; 3] = [-20, -20, -20];
        let mut coords_pos: [i64; 3] = [20, 20, 20];
        coords_neg[i] = 0;
        coords_pos[i] = 0;
        let b: Box3D<i64> = Box3D::from_points(&[Point3D::from(coords_neg), Point3D::from(coords_pos)]);
        assert!(b.is_empty());
    }
}

#[test]
fn test_from_points() {
    let b: Box3D<i64> = Box3D::from_points(&[point3(50, 160, 12), point3(100, 25, 200)]);
    assert!(b.min == point3(50, 25, 12));
    assert!(b.max == point3(100, 160, 200));
}

#[test]
fn test_min_max() {
    let b: Box3D<i64> = Box3D::from_points(&[point3(50, 25, 12), point3(100, 160, 200)]);
    assert!(b.min_x() == 50);
    assert!(b.min_y() == 25);
    assert!(b.min_z() == 12);
    assert!(b.max_x() == 100);
    assert!(b.max_y() == 160);
    assert!(b.max_z() == 200);
}

#[test]
fn test_round_in() {
    let b: Box3D<i64> = Box3D::from_points(&[point3(-25, -40, -70), point3(60, 36, 89)]).round_in();
    assert!(b.min_x() == -25);
    assert!(b.min_y() == -40);
    assert!(b.min_z() == -70);
    assert!(b.max_x() == 60);
    assert!(b.max_y() == 36);
    assert!(b.max_z() == 89);
}

#[test]
fn test_round_out() {
    let b: Box3D<i64> = Box3D::from_points(&[point3(-26, -41, -71), point3(61, 37, 90)]).round_out();
    assert!(b.min_x() == -26);
    assert!(b.min_y() == -41);
    assert!(b.min_z() == -71);
    assert!(b.max_x() == 61);
    assert!(b.max_y() == 37);
    assert!(b.max_z() == 90);
}

#[test]
fn test_round() {
    let b: Box3D<i64> = Box3D::from_points(&[point3(-26, -40, -71), point3(60, 37, 90)]).round();
    assert!(b.min_x() == -26);
    assert!(b.min_y() == -40);
    assert!(b.min_z() == -71);
    assert!(b.max_x() == 60);
    assert!(b.max_y() == 37);
    assert!(b.max_z() == 90);
}

#[test]
fn test_translate() {
    let size = size3(15, 15, 200);
    let half = size3(size.width / 2, size.height / 2, size.depth / 2);
    let center = half.to_vector().to_point();
    let b: Box3D<i64> = Box3D::from_size(size);
    assert!(b.center() == center);
    let translation = vec3(10, 2, 9);
    let b = b.translate(&translation);
    let center = center.add_vector(&translation);
    assert!(b.center() == center);
    assert!(b.max_x() == 25);
    assert!(b.max_y() == 17);
    assert!(b.max_z() == 209);
    assert!(b.min_x() == 10);
    assert!(b.min_y() == 2);
    assert!(b.min_z() == 9);
}

#[test]
fn test_scale() {
    let b: Box3D<i64> = Box3D::from_points(&[point3(-10, -10, -10), point3(10, 10, 10)]);
    let b = b.scale(2, 2, 2);
    assert!(b.max_x() == 20);
    assert!(b.max_y() == 20);
    assert!(b.max_z() == 20);
    assert!(b.min_x() == -20);
    assert!(b.min_y() == -20);
    assert!(b.min_z() == -20);
}

#[test]
fn test_lerp() {
    let b1: Box3D<i64> = Box3D::from_points(&[point3(-20, -20, -20), point3(-10, -10, -10)]);
    let b2: Box3D<i64> = Box3D::from_points(&[point3(10, 10, 10), point3(20, 20, 20)]);
    let b = b1.lerp(b2, 1);
    assert!(b.center() == point3(15, 15, 15));
    assert!(b.size().width == 10);
    assert!(b.size().height == 10);
    assert!(b.size().depth == 10);
}

#[test]
fn test_contains() {
    let b: Box3D<i64> = Box3D::from_points(&[point3(-20, -20, -20), point3(20, 20, 20)]);
    assert!(b.contains(&point3(-15, 10, 18)));
}

#[test]
fn test_contains_box() {
    let b1: Box3D<i64> = Box3D::from_points(&[point3(-20, -20, -20), point3(20, 20, 20)]);
    let b2: Box3D<i64> = Box3D::from_points(&[point3(-14, -16, -19), point3(6, 17, 2)]);
    assert!(b1.contains_box(&b2));
}
