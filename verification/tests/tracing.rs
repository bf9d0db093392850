use raytrace::fx::Fx;
use raytrace::light::Light;
use raytrace::material::Material;
use raytrace::sphere::Sphere;
use raytrace::trace::{
    cast_ray, light_contrib_exec, refract, spheres_intercects, HitRecord, RenderConfig,
};
use raytrace::vec3::Vec3;

fn v(x: i64, y: i64, z: i64) -> Vec3 {
    Vec3::new(Fx::from_int(x), Fx::from_int(y), Fx::from_int(z))
}

fn vm(x: i64, y: i64, z: i64) -> Vec3 {
    Vec3::new(Fx::from_milli(x), Fx::from_milli(y), Fx::from_milli(z))
}

fn plain_material() -> Material {
    Material::new(
        (Fx::one(), Fx::zero(), Fx::zero(), Fx::zero()),
        vm(400, 400, 300),
        50,
        Fx::one(),
    )
}

fn mirror_material() -> Material {
    Material::new(
        (Fx::zero(), Fx::zero(), Fx::one(), Fx::zero()),
        v(1, 1, 1),
        1425,
        Fx::one(),
    )
}

#[test]
fn axial_ray_hits_sphere_at_distance_four() {
    let sphere = Sphere::new(v(0, 0, -5), Fx::one(), plain_material());
    let (hit, dist) = sphere.ray_intersects(v(0, 0, 0), v(0, 0, -1).normalize());
    assert!(hit);
    assert_eq!(Fx::from_int(4), dist);
}

#[test]
fn axial_ray_misses_offset_sphere() {
    let sphere = Sphere::new(v(5, 0, -5), Fx::one(), plain_material());
    let (hit, _) = sphere.ray_intersects(v(0, 0, 0), v(0, 0, -1).normalize());
    assert!(!hit);
}

#[test]
fn occluded_light_contributes_nothing() {
    // The light sits directly behind the occluding sphere as seen from the
    // shaded point, so its diffuse and specular contributions vanish.
    let occluder = vec![Sphere::new(v(0, 0, -11), Fx::one(), plain_material())];
    let hit = HitRecord {
        hit: true,
        distance: Fx::from_int(16),
        point: v(0, 0, -16),
        normal: v(0, 0, 1),
        material: plain_material(),
    };
    let light = Light::new(v(0, 0, -6), Fx::from_milli(1500));
    let dir = v(0, 0, -1);
    let eps = Fx { v: 7 };
    let (di, si) = light_contrib_exec(light, hit, dir, &occluder, eps);
    assert_eq!(0, di.v);
    assert_eq!(0, si.v);
    // Without the occluder the same light contributes diffuse intensity.
    let empty: Vec<Sphere> = vec![];
    let (di2, _) = light_contrib_exec(light, hit, dir, &empty, eps);
    assert!(di2.v > 0);
}

#[test]
fn facing_mirrors_return_background_at_every_cap() {
    // Two fully mirrored spheres face each other across the origin; the
    // bounce chain ends at the recursion floor and the background color
    // comes back exactly, for every cap from one through twenty.
    let spheres = vec![
        Sphere::new(v(0, 0, -5), Fx::one(), mirror_material()),
        Sphere::new(v(0, 0, 5), Fx::one(), mirror_material()),
    ];
    let lights: Vec<Light> = vec![];
    for cap in 1u8..=20 {
        let mut cfg = RenderConfig::standard();
        cfg.max_recursion_depth = cap;
        let from_between = cast_ray(v(0, 0, 0), v(0, 0, -1), &spheres, &lights, 0, &cfg);
        assert_eq!(cfg.background_color, from_between);
        let past_cap = cast_ray(
            v(0, 0, 0),
            v(0, 0, -1),
            &spheres,
            &lights,
            cap as usize + 1,
            &cfg,
        );
        assert_eq!(cfg.background_color, past_cap);
    }
}

#[test]
fn refraction_at_normal_incidence_is_identity_for_unit_index() {
    let i = v(0, 0, -1);
    let n = v(0, 0, 1);
    let r = refract(i, n, Fx::one(), Fx::one());
    assert_eq!(i, r);
}

#[test]
fn refraction_bends_more_as_the_index_grows() {
    // A fixed oblique incidence: the transverse component of the refracted
    // direction shrinks monotonically as the refractive index rises.
    let i = vm(600, 0, -800);
    let n = v(0, 0, 1);
    let r11 = refract(i, n, Fx::from_milli(1100), Fx::one());
    let r13 = refract(i, n, Fx::from_milli(1300), Fx::one());
    let r15 = refract(i, n, Fx::from_milli(1500), Fx::one());
    assert!(r11.x.v > r13.x.v);
    assert!(r13.x.v > r15.x.v);
    assert!(r15.x.v > 0);
}

#[test]
fn ground_plane_shows_the_checkerboard() {
    let empty: Vec<Sphere> = vec![];
    // Straight down four units: the even tile at the origin is tan.
    let h = spheres_intercects(v(0, 0, 0), v(0, -1, 0), &empty);
    assert!(h.hit);
    assert_eq!(Fx::from_int(4), h.distance);
    assert_eq!(v(0, -4, 0), h.point);
    assert_eq!(v(0, 1, 0), h.normal);
    assert_eq!(
        Vec3::new(Fx::one(), Fx { v: 45875 }, Fx { v: 19660 }),
        h.material.diffuse_color
    );
    // Two and a half units to the side lands on an odd, white tile.
    let h2 = spheres_intercects(vm(2500, 0, 0), v(0, -1, 0), &empty);
    assert!(h2.hit);
    assert_eq!(v(1, 1, 1), h2.material.diffuse_color);
}

#[test]
fn ray_escaping_upward_sees_the_background() {
    let empty: Vec<Sphere> = vec![];
    let lights: Vec<Light> = vec![];
    let cfg = RenderConfig::standard();
    let c = cast_ray(v(0, 0, 0), v(0, 1, 0).normalize(), &empty, &lights, 0, &cfg);
    assert_eq!(cfg.background_color, c);
}
