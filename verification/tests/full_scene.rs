use raytrace::fx::Fx;
use raytrace::light::Light;
use raytrace::material::Material;
use raytrace::render::{render_spheres, ImageMatrix};
use raytrace::sphere::Sphere;
use raytrace::trace::{fx_pow, RenderConfig};
use raytrace::vec3::Vec3;

fn v(x: i64, y: i64, z: i64) -> Vec3 {
    Vec3::new(Fx::from_int(x), Fx::from_int(y), Fx::from_int(z))
}

fn vm(x: i64, y: i64, z: i64) -> Vec3 {
    Vec3::new(Fx::from_milli(x), Fx::from_milli(y), Fx::from_milli(z))
}

fn albedo(kd: i64, ks: i64, kr: i64, kt: i64) -> (Fx, Fx, Fx, Fx) {
    (
        Fx::from_milli(kd),
        Fx::from_milli(ks),
        Fx::from_milli(kr),
        Fx::from_milli(kt),
    )
}

#[test]
fn power_function_is_exact_on_halves() {
    let half = Fx::from_milli(500);
    assert_eq!(Fx::one(), fx_pow(half, 0));
    assert_eq!(half, fx_pow(half, 1));
    assert_eq!(Fx::from_milli(250), fx_pow(half, 2));
    assert_eq!(Fx { v: 8192 }, fx_pow(half, 3));
    assert_eq!(Fx::zero(), fx_pow(half, 40));
}

#[test]
fn blank_material_is_pure_diffuse_black() {
    let m = Material::new_blank();
    assert_eq!(Fx::one(), m.albedo.0);
    assert_eq!(Fx::zero(), m.albedo.1);
    assert_eq!(Fx::zero(), m.albedo.2);
    assert_eq!(Fx::zero(), m.albedo.3);
    assert_eq!(v(0, 0, 0), m.diffuse_color);
    assert_eq!(0, m.specular_exponent);
    assert_eq!(Fx::zero(), m.refractive_index);
}

#[test]
fn mixed_scene_with_glass_and_mirror_renders_deterministically() {
    // The full standard scene - ivory, glass, rubber and mirror spheres with
    // three lights - exercises reflection, refraction and shadow paths at
    // depth ten, twice, with identical results.
    let ivory = Material::new(albedo(600, 300, 100, 0), vm(400, 400, 300), 50, Fx::one());
    let red_rubber = Material::new(albedo(900, 100, 0, 0), vm(300, 100, 100), 10, Fx::one());
    let mirror = Material::new(albedo(0, 10000, 800, 0), v(1, 1, 1), 1425, Fx::one());
    let glass = Material::new(
        albedo(0, 500, 100, 800),
        vm(600, 700, 800),
        125,
        Fx::from_milli(1500),
    );
    let spheres = vec![
        Sphere::new(v(-3, 0, -16), Fx::from_int(2), ivory),
        Sphere::new(vm(-1000, -1500, -12000), Fx::from_int(2), glass),
        Sphere::new(vm(1500, -500, -18000), Fx::from_int(3), red_rubber),
        Sphere::new(v(7, 5, -18), Fx::from_int(4), mirror),
    ];
    let lights = vec![
        Light::new(v(-20, 20, 20), Fx::from_milli(1500)),
        Light::new(v(30, 50, -25), Fx::from_milli(1800)),
        Light::new(v(30, 20, 30), Fx::from_milli(1700)),
    ];
    let cfg = RenderConfig::standard();
    let mut m1 = ImageMatrix::new(4, 4);
    let mut m2 = ImageMatrix::new(4, 4);
    render_spheres(&mut m1, &spheres, &lights, &cfg);
    render_spheres(&mut m2, &spheres, &lights, &cfg);
    for x in 0..4 {
        for y in 0..4 {
            assert_eq!(m1.pixel_bytes(x, y), m2.pixel_bytes(x, y));
        }
    }
}
