use raytrace::fx::Fx;
use raytrace::light::Light;
use raytrace::material::Material;
use raytrace::render::{render_spheres, ImageMatrix};
use raytrace::sphere::Sphere;
use raytrace::trace::RenderConfig;
use raytrace::vec3::Vec3;

fn v(x: i64, y: i64, z: i64) -> Vec3 {
    Vec3::new(Fx::from_int(x), Fx::from_int(y), Fx::from_int(z))
}

fn vm(x: i64, y: i64, z: i64) -> Vec3 {
    Vec3::new(Fx::from_milli(x), Fx::from_milli(y), Fx::from_milli(z))
}

#[test]
fn raster_starts_black_and_stores_what_is_put() {
    let mut m = ImageMatrix::new(4, 4);
    assert_eq!((4, 4), m.get_dimensions());
    assert_eq!((0, 0, 0), m.pixel_bytes(1, 2));
    m.put_pixel(1, 2, v(1, 0, 0));
    assert_eq!((255, 0, 0), m.pixel_bytes(1, 2));
    assert_eq!((0, 0, 0), m.pixel_bytes(0, 0));
    assert_eq!((0, 0, 0), m.pixel_bytes(2, 1));
}

#[test]
fn upward_pixels_of_an_empty_scene_are_background() {
    let spheres: Vec<Sphere> = vec![];
    let lights: Vec<Light> = vec![];
    let cfg = RenderConfig::standard();
    let mut m = ImageMatrix::new(2, 2);
    render_spheres(&mut m, &spheres, &lights, &cfg);
    // The top row looks upward, over the ground plane, into the background.
    assert_eq!((50, 178, 203), m.pixel_bytes(0, 0));
    assert_eq!((50, 178, 203), m.pixel_bytes(1, 0));
}

#[test]
fn rendering_twice_gives_identical_pixels() {
    // A two-by-two image of one diffuse sphere and one light comes out the
    // same, pixel for pixel, on every run: nothing in the pipeline is random.
    let spheres = vec![Sphere::new(
        v(0, 0, -5),
        Fx::from_int(2),
        Material::new(
            (Fx::from_milli(900), Fx::from_milli(100), Fx::zero(), Fx::zero()),
            vm(300, 100, 100),
            10,
            Fx::one(),
        ),
    )];
    let lights = vec![Light::new(v(-20, 20, 20), Fx::from_milli(1500))];
    let cfg = RenderConfig::standard();
    let mut m1 = ImageMatrix::new(2, 2);
    let mut m2 = ImageMatrix::new(2, 2);
    render_spheres(&mut m1, &spheres, &lights, &cfg);
    render_spheres(&mut m2, &spheres, &lights, &cfg);
    for x in 0..2 {
        for y in 0..2 {
            assert_eq!(m1.pixel_bytes(x, y), m2.pixel_bytes(x, y));
        }
    }
    // And the sphere actually shows: the image is not uniformly background.
    let background = (50, 178, 203);
    let mut non_background = 0;
    for x in 0..2 {
        for y in 0..2 {
            if m1.pixel_bytes(x, y) != background {
                non_background += 1;
            }
        }
    }
    assert!(non_background > 0);
}

#[test]
fn square_roots_round_down_to_the_step() {
    assert_eq!(Fx::from_int(5), Fx::from_int(25).sqrt());
    assert_eq!(Fx { v: 92681 }, Fx::from_int(2).sqrt());
    assert_eq!(Fx::zero(), Fx::zero().sqrt());
}
