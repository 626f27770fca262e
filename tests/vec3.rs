use raytracer::float_bits::{abs, float_eq, float_lt, is_nan, negate};
use raytracer::Vec3;

fn vec3(x: f64, y: f64, z: f64) -> Vec3 {
    Vec3::new(x.to_bits(), y.to_bits(), z.to_bits())
}

fn parts(v: &Vec3) -> (f64, f64, f64) {
    (f64::from_bits(v.x()), f64::from_bits(v.y()), f64::from_bits(v.z()))
}

#[test]
fn vec3_default() {
    let vec = Vec3::default();

    assert_eq!(0.0, f64::from_bits(vec.x()));
    assert_eq!(0.0, f64::from_bits(vec.y()));
    assert_eq!(0.0, f64::from_bits(vec.z()));
}

#[test]
fn vec3_assign() {
    let vec = vec3(1.0, 2.0, 3.0);

    assert_eq!(1.0, f64::from_bits(vec.x()));
    assert_eq!(2.0, f64::from_bits(vec.y()));
    assert_eq!(3.0, f64::from_bits(vec.z()));
}

#[test]
fn vec3_neg() {
    let vec = vec3(1.0, 2.0, 3.0);
    let vec_neg = -vec;

    assert_eq!(-1.0, f64::from_bits(vec_neg.x()));
    assert_eq!(-2.0, f64::from_bits(vec_neg.y()));
    assert_eq!(-3.0, f64::from_bits(vec_neg.z()));

    assert_eq!(1.0, f64::from_bits(vec.x()));
    assert_eq!(2.0, f64::from_bits(vec.y()));
    assert_eq!(3.0, f64::from_bits(vec.z()));
}

#[test]
fn vec3_array_access() {
    let vec = vec3(1.0, 2.0, 3.0);

    assert_eq!(1.0, f64::from_bits(vec.index(0)));
    assert_eq!(2.0, f64::from_bits(vec.index(1)));
    assert_eq!(3.0, f64::from_bits(vec.index(2)));
}

#[test]
fn vector_cmp() {
    let vec_a = vec3(1.0, 2.0, 3.0);
    let vec_b = vec3(1.0, 2.0, 3.0);

    assert_eq!(vec_a, vec_b);
}

#[test]
fn test_near_zero() {
    assert!(Vec3::default().near_zero());
    assert!(vec3(0.000000001, 0.0, 0.0).near_zero());
    assert!(!vec3(1.0, 1.0, 1.0).near_zero());
    assert!(!vec3(0.00000001, 0.0, 0.0).near_zero());
}

#[test]
fn near_zero_ignores_sign_and_rejects_nan() {
    assert!(vec3(-0.000000001, 0.000000001, -0.0).near_zero());
    assert!(!vec3(0.0, -0.00000001, 0.0).near_zero());
    assert!(!vec3(0.0, 0.0, f64::NAN).near_zero());
    assert!(!vec3(f64::INFINITY, 0.0, 0.0).near_zero());
}

#[test]
fn vec3_eq_follows_ieee() {
    assert_eq!(vec3(0.0, 1.0, 2.0), vec3(-0.0, 1.0, 2.0));
    assert_ne!(vec3(f64::NAN, 1.0, 2.0), vec3(f64::NAN, 1.0, 2.0));
    assert_ne!(vec3(1.0, 2.0, 3.0), vec3(1.0, 2.0, 3.5));
    assert_ne!(vec3(1.0, 2.0, 3.0), vec3(1.0, -2.0, 3.0));
}

#[test]
fn neg_flips_every_sign() {
    let v = -vec3(0.0, -4.5, f64::INFINITY);
    let (x, y, z) = parts(&v);
    assert!(x == 0.0 && x.is_sign_negative());
    assert_eq!(4.5, y);
    assert_eq!(f64::NEG_INFINITY, z);
    assert_eq!(vec3(1.0, -2.0, 3.0), -(-vec3(1.0, -2.0, 3.0)));
}

#[test]
fn float_eq_matches_f64() {
    let values = [
        0.0,
        -0.0,
        1.0,
        -1.0,
        0.5,
        1e-300,
        -1e300,
        f64::INFINITY,
        f64::NEG_INFINITY,
        f64::NAN,
        f64::MIN_POSITIVE,
        -f64::MIN_POSITIVE,
        f64::MAX,
    ];
    for a in values {
        for b in values {
            assert_eq!(a == b, float_eq(a.to_bits(), b.to_bits()), "{a} == {b}");
            assert_eq!(a < b, float_lt(a.to_bits(), b.to_bits()), "{a} < {b}");
        }
        assert_eq!(a.is_nan(), is_nan(a.to_bits()));
        assert_eq!((-a).to_bits(), negate(a.to_bits()));
        assert_eq!(a.abs().to_bits(), abs(a.to_bits()));
    }
}
