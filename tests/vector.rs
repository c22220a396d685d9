use std::ops::Neg;
use vec3::Vec3;

fn close(a: f32, b: f32) -> bool {
    (a - b).abs() <= 1e-5
}

#[test]
fn new_keeps_components() {
    let v = Vec3::new(1.5f32, -2.0, 3.25);
    assert_eq!(v.x, 1.5);
    assert_eq!(v.y, -2.0);
    assert_eq!(v.z, 3.25);
}

#[test]
fn from_slice_reads_in_order() {
    let s = [7.0f32, 8.0, 9.0];
    assert_eq!(Vec3::from_slice(&s), Vec3::new(7.0, 8.0, 9.0));
    let t: Vec<i64> = vec![-1, 0, 1];
    assert_eq!(Vec3::from_slice(&t), Vec3::new(-1, 0, 1));
}

#[test]
fn add_componentwise() {
    assert_eq!(
        Vec3::new(1.0f32, 2.0, 3.0) + Vec3::new(4.0, 5.0, 6.0),
        Vec3::new(5.0, 7.0, 9.0)
    );
}

#[test]
fn sub_componentwise() {
    assert_eq!(
        Vec3::new(4.0f32, 5.0, 6.0) - Vec3::new(1.0, 3.0, 9.0),
        Vec3::new(3.0, 2.0, -3.0)
    );
}

#[test]
fn neg_componentwise() {
    assert_eq!(-Vec3::new(1.0f32, -2.0, 0.5), Vec3::new(-1.0, 2.0, -0.5));
    assert_eq!(Vec3::new(3i64, -4, 0).neg(), Vec3::new(-3, 4, 0));
}

#[test]
fn scale_componentwise() {
    assert_eq!(Vec3::new(1.0f32, -2.0, 0.5) * 4.0, Vec3::new(4.0, -8.0, 2.0));
    assert_eq!(Vec3::new(2i64, 3, -5) * -3, Vec3::new(-6, -9, 15));
}

#[test]
fn dot_sums_products() {
    assert_eq!(Vec3::new(1.0f32, 2.0, 3.0).dot(&Vec3::new(4.0, -5.0, 6.0)), 12.0);
    assert_eq!(Vec3::new(3i64, 4, 0).dot(&Vec3::new(3, 4, 0)), 25);
    let z = Vec3::new(0.0f32, 0.0, 0.0);
    assert_eq!(z.dot(&Vec3::new(9.0, 8.0, 7.0)), 0.0);
}

#[test]
fn cross_of_unit_axes() {
    assert_eq!(
        Vec3::new(1.0f32, 0.0, 0.0).cross(&Vec3::new(0.0, 1.0, 0.0)),
        Vec3::new(0.0, 0.0, 1.0)
    );
    assert_eq!(
        Vec3::new(0i64, 1, 0).cross(&Vec3::new(0, 0, 1)),
        Vec3::new(1, 0, 0)
    );
}

#[test]
fn cross_formula() {
    assert_eq!(
        Vec3::new(1i64, 2, 3).cross(&Vec3::new(4, 5, 6)),
        Vec3::new(-3, 6, -3)
    );
}

#[test]
fn cross_of_parallel_is_zero() {
    let a = Vec3::new(1.0f32, 2.0, 3.0);
    assert_eq!(a.cross(&(a * 2.0)), Vec3::new(0.0, 0.0, 0.0));
    let z = Vec3::new(0i64, 0, 0);
    assert_eq!(Vec3::new(5i64, -1, 2).cross(&z), z);
}

#[test]
fn reflect_parallel_to_surface() {
    assert_eq!(
        Vec3::new(1.0f32, 0.0, 0.0).reflect(&Vec3::new(0.0, 1.0, 0.0)),
        Vec3::new(1.0, 0.0, 0.0)
    );
}

#[test]
fn reflect_bounces_off_floor() {
    assert_eq!(
        Vec3::new(1.0f32, -1.0, 0.0).reflect(&Vec3::new(0.0, 1.0, 0.0)),
        Vec3::new(1.0, 1.0, 0.0)
    );
    assert_eq!(
        Vec3::new(2i64, -3, 4).reflect(&Vec3::new(0, 0, 1)),
        Vec3::new(2, -3, -4)
    );
}

#[test]
fn reflect_uses_normal_as_given() {
    // d = 2, so the result is v - n * 2 * 2
    assert_eq!(
        Vec3::new(0i64, 1, 0).reflect(&Vec3::new(0, 2, 0)),
        Vec3::new(0, -7, 0)
    );
}

#[test]
fn identity_laws() {
    let v = Vec3::new(1.5f32, -2.25, 7.0);
    let zero = Vec3::new(0.0f32, 0.0, 0.0);
    assert_eq!(v + zero, v);
    assert_eq!(v - v, zero);
    assert_eq!(v * 1.0, v);
    assert_eq!(-(-v), v);
    let w = Vec3::new(i64::MAX, i64::MIN + 1, 0);
    let zi = Vec3::new(0i64, 0, 0);
    assert_eq!(w + zi, w);
    assert_eq!(w - w, zi);
    assert_eq!(w * 1, w);
    assert_eq!(-(-w), w);
}

#[test]
fn add_commutes() {
    let a = Vec3::new(0.1f32, 0.2, 0.3);
    let b = Vec3::new(1e7f32, -3.5, 2.0);
    assert_eq!(a + b, b + a);
}

#[test]
fn cross_anticommutes() {
    let a = Vec3::new(1.5f32, -2.0, 0.25);
    let b = Vec3::new(3.0f32, 0.5, -4.0);
    assert_eq!(a.cross(&b), -b.cross(&a));
    let c = Vec3::new(2i64, 7, -1);
    let d = Vec3::new(-3i64, 4, 9);
    assert_eq!(c.cross(&d), -d.cross(&c));
}

#[test]
fn dot_distributes_over_add() {
    let a = Vec3::new(1i64, -2, 3);
    let b = Vec3::new(4i64, 5, -6);
    let c = Vec3::new(-7i64, 8, 9);
    assert_eq!((a + b).dot(&c), a.dot(&c) + b.dot(&c));
    let fa = Vec3::new(0.5f32, -1.25, 2.0);
    let fb = Vec3::new(3.0f32, 0.75, -1.5);
    let fc = Vec3::new(1.0f32, 2.0, 4.0);
    assert!(close((fa + fb).dot(&fc), fa.dot(&fc) + fb.dot(&fc)));
}

#[test]
fn squared_length_nonnegative() {
    let v = Vec3::new(-3i64, 4, -12);
    assert_eq!(v.dot(&v), 169);
    let z = Vec3::new(0i64, 0, 0);
    assert_eq!(z.dot(&z), 0);
}

#[test]
fn reflect_in_plane_is_identity() {
    let n = Vec3::new(0.0f32, 0.0, 1.0);
    let v = Vec3::new(3.0f32, -4.0, 0.0);
    assert_eq!(v.reflect(&n), v);
    let vi = Vec3::new(2i64, 1, 0);
    let ni = Vec3::new(-1i64, 2, 5);
    assert_eq!(vi.reflect(&ni), vi);
}

#[test]
fn cross_is_orthogonal() {
    let a = Vec3::new(2i64, -3, 5);
    let b = Vec3::new(7i64, 11, -13);
    let c = a.cross(&b);
    assert_eq!(c.dot(&a), 0);
    assert_eq!(c.dot(&b), 0);
    let fa = Vec3::new(0.3f32, -1.2, 2.5);
    let fb = Vec3::new(1.7f32, 0.4, -0.9);
    let fc = fa.cross(&fb);
    assert!(close(fc.dot(&fa), 0.0));
    assert!(close(fc.dot(&fb), 0.0));
}
