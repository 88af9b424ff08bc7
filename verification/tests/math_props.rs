use ahoy_kcc::math::{dist_sq_xz, isqrt64, Vec3};

fn v(x: i64, y: i64, z: i64) -> Vec3 {
    Vec3 { x, y, z }
}

#[test]
fn isqrt_exact_values() {
    assert_eq!(isqrt64(0), 0);
    assert_eq!(isqrt64(1), 1);
    assert_eq!(isqrt64(3), 1);
    assert_eq!(isqrt64(4), 2);
    assert_eq!(isqrt64(104_400_000), 10_217);
    assert_eq!(isqrt64(u64::MAX), 4_294_967_295);
}

#[test]
fn length_of_pythagorean_vector() {
    assert_eq!(v(3000, 0, 4000).length(), 5000);
    assert_eq!(v(0, 0, 0).length(), 0);
    assert_eq!(v(-3000, 0, 4000).length(), 5000);
}

#[test]
fn normalize_gives_unit_components() {
    let u = v(0, 0, -12_000).normalize_or_zero();
    assert_eq!(u, v(0, 0, -1000));
    let u = v(5000, 0, 0).normalize_or_zero();
    assert_eq!(u, v(1000, 0, 0));
    assert_eq!(v(0, 0, 0).normalize_or_zero(), v(0, 0, 0));
}

#[test]
fn dot_of_unit_vectors() {
    let a = v(1000, 0, 0);
    let b = v(0, 0, -1000);
    assert_eq!(a.dot(b), 0);
    assert_eq!(a.dot(a), 1000);
    assert_eq!(b.dot(b), 1000);
}

#[test]
fn cross_follows_right_hand_rule() {
    let x = v(1000, 0, 0);
    let z = v(0, 0, 1000);
    let c = x.cross(z);
    assert_eq!(c, v(0, -1000, 0));
}

#[test]
fn horizontal_distance_ignores_height() {
    let a = v(3000, 50_000, 0);
    let b = v(0, -2000, 4000);
    assert_eq!(dist_sq_xz(a, b), 3000 * 3000 + 4000 * 4000);
}

#[test]
fn scale_truncates_toward_zero() {
    let a = v(1500, -1500, 0).scale(500);
    assert_eq!(a, v(750, -750, 0));
    let b = v(3, -3, 1).scale(500);
    assert_eq!(b, v(1, -1, 0));
}
