use raytracer::{Color, Lambertian};

fn color(r: f64, g: f64, b: f64) -> Color {
    Color::new(r.to_bits(), g.to_bits(), b.to_bits())
}

#[test]
fn lambertian_test_init() {
    let color = color(1.0, 0.5, 0.1);
    let lambertian = Lambertian::new(&color);
    assert_eq!(color, lambertian.albedo());
}

#[test]
fn test_eq() {
    let color_a = color(1.0, 0.5, 0.1);
    let lambertian_a = Lambertian::new(&color_a);
    let color_b = color(1.0, 0.5, 0.1);
    let lambertian_b = Lambertian::new(&color_b);
    let color_c = color(1.1, 0.5, 0.1);
    let lambertian_c = Lambertian::new(&color_c);

    assert_eq!(lambertian_a, lambertian_b);
    assert_ne!(lambertian_a, lambertian_c);
}
