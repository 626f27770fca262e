use raytracer::clamp;

fn clamped(x: f64, min: f64, max: f64) -> f64 {
    f64::from_bits(clamp(x.to_bits(), min.to_bits(), max.to_bits()))
}

#[test]
fn clamp_test() {
    assert_eq!(0.5, clamped(0.5, 0.0, 1.0));
    assert_eq!(0.0, clamped(-0.5, 0.0, 1.0));
    assert_eq!(1.0, clamped(1.5, 0.0, 1.0));
}

#[test]
fn clamp_edges() {
    assert_eq!(0.999, clamped(1.0, 0.0, 0.999));
    assert_eq!(0.999, clamped(0.999, 0.0, 0.999));
    assert_eq!(-2.0, clamped(-3.0, -2.0, -1.0));
    assert_eq!(-1.0, clamped(f64::INFINITY, -2.0, -1.0));
    assert!(clamped(f64::NAN, 0.0, 1.0).is_nan());
    let z = clamped(-0.0, 0.0, 1.0);
    assert!(z == 0.0 && z.is_sign_negative());
}
