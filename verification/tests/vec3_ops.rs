use raytrace::fx::Fx;
use raytrace::vec3::Vec3;

fn v(x: i64, y: i64, z: i64) -> Vec3 {
    Vec3::new(Fx::from_int(x), Fx::from_int(y), Fx::from_int(z))
}

fn vm(x: i64, y: i64, z: i64) -> Vec3 {
    Vec3::new(Fx::from_milli(x), Fx::from_milli(y), Fx::from_milli(z))
}

#[test]
fn test_vec3_add() {
    let vec1 = v(1, 5, 7);
    let vec2 = v(-5, 10, 0);
    assert_eq!(v(-4, 15, 7), vec1.add(vec2));
}

#[test]
fn test_vec3_sub() {
    let vec1 = v(1, 2, 3);
    let vec2 = v(4, 5, 6);
    assert_eq!(v(-3, -3, -3), vec1.sub(vec2));
}

#[test]
fn test_vec3_mul() {
    let vec1 = v(1, 2, 4);
    let vec2 = vm(1000, 500, 250);
    assert_eq!(v(1, 1, 1), vec1.mul(vec2));
}

#[test]
fn test_vec3_div() {
    let vec1 = v(10, 20, 40);
    let vec2 = v(1, 2, 4);
    assert_eq!(v(10, 10, 10), vec1.div(vec2));
}

#[test]
fn test_vec3_scalar() {
    let vec1 = v(10, 20, 40);
    let vec2 = v(1, 2, 4);
    assert_eq!(Fx::from_int(10 + 2 * 20 + 4 * 40), vec1.dot(vec2));
}

#[test]
fn normalize_keeps_direction_under_positive_scaling() {
    let a = v(1, 2, 3);
    let n1 = a.normalize();
    let n2 = a.mul_const(Fx::from_int(5)).normalize();
    // Truncated arithmetic may shift each component by a step or two, no more.
    assert!((n1.x.v - n2.x.v).abs() <= 2);
    assert!((n1.y.v - n2.y.v).abs() <= 2);
    assert!((n1.z.v - n2.z.v).abs() <= 2);
}

#[test]
fn normalized_vector_has_unit_length() {
    // An axis direction normalizes exactly.
    let a = v(0, 0, 7);
    assert_eq!(Fx::one(), a.normalize().len());
    // A Pythagorean direction lands within a couple of steps of one.
    let p = v(3, 0, 4);
    assert!((p.normalize().len().v - Fx::one().v).abs() <= 2);
    // A generic direction lands within a couple of steps of one.
    let b = v(1, 2, 3);
    assert!((b.normalize().len().v - Fx::one().v).abs() <= 2);
    let c = vm(-123, 456, 789);
    assert!((c.normalize().len().v - Fx::one().v).abs() <= 2);
}

#[test]
fn color_conversion_compresses_highlights_and_truncates() {
    // Largest channel 2.0: every channel is halved before rescaling.
    let bright = vm(500, 1000, 2000);
    assert_eq!((63, 127, 255), bright.to_rgb_bytes());
    // Largest channel at most 1.0: channels rescale directly.
    let plain = vm(500, 250, 1000);
    assert_eq!((127, 63, 255), plain.to_rgb_bytes());
    // Negative channels saturate to zero rather than wrapping, and the
    // corrected largest channel truncates just below full brightness.
    let weird = vm(-1000, 500, 3000);
    assert_eq!((0, 42, 254), weird.to_rgb_bytes());
}
