//! The ray-casting evaluator: nearest-hit queries against the scene, local
//! shading with hard shadows, and the reflection/refraction recursion with
//! its depth cutoff.

use vstd::prelude::*;
use crate::fx::{
    fadd, fdiv, fmax, fmin, fmul, fneg, fpow, fsqrt, fsub, iabs, floor_div_exec, Fx, FX_LIMIT,
    FX_SCALE,
};
use crate::light::{Light, LightS};
use crate::material::{Material, MaterialS};
use crate::sphere::{sphere_hit, Sphere, SphereS};
use crate::vec3::{
    v3_add, v3_dot, v3_neg, v3_ones, v3_scale, v3_sub, v3_unit_total, v3_zero, v3_len, Vec3,
    Vec3S,
};

verus! {

/// A ray pointing this nearly parallel to the ground plane never hits it.
pub const PLANE_EPS: i64 = 66;

/// Hits beyond this distance are treated as rays escaped to the background.
pub const MAX_DIST: i64 = 1000 * FX_SCALE;

pub open spec fn spheres_views(s: Seq<Sphere>) -> Seq<SphereS> {
    s.map_values(|p: Sphere| p@)
}

pub open spec fn lights_views(s: Seq<Light>) -> Seq<LightS> {
    s.map_values(|p: Light| p@)
}

/// The fixed background color of the standard scene.
pub open spec fn background_color_s() -> Vec3S {
    Vec3S { x: 13107, y: 45875, z: 52428 }
}

/// The material reported when nothing was hit: pure diffuse background.
pub open spec fn background_material_s() -> MaterialS {
    MaterialS {
        albedo: (FX_SCALE as int, 0, 0, 0),
        diffuse_color: background_color_s(),
        specular_exponent: 1,
        refractive_index: FX_SCALE as int,
    }
}

/// The point a distance `t` along the ray from `orig` in direction `dir`.
pub open spec fn ray_at(orig: Vec3S, dir: Vec3S, t: int) -> Vec3S {
    v3_add(orig, v3_scale(dir, t))
}

/// The state of the nearest-hit scan over the first `n` spheres: distance of
/// the best accepted hit so far (or the far limit), and its hit data.
pub ghost struct ScanS {
    pub dist: int,
    pub point: Vec3S,
    pub normal: Vec3S,
    pub material: MaterialS,
}

/// Scan the first `n` spheres in list order, keeping the strictly nearest
/// accepted hit: ties go to the earlier sphere.
pub open spec fn scan_spheres(spheres: Seq<SphereS>, orig: Vec3S, dir: Vec3S, n: int) -> ScanS
    decreases n,
{
    if n <= 0 {
        ScanS {
            dist: FX_LIMIT as int,
            point: v3_zero(),
            normal: v3_zero(),
            material: background_material_s(),
        }
    } else {
        let prev = scan_spheres(spheres, orig, dir, n - 1);
        let s = spheres[n - 1];
        let h = sphere_hit(s, orig, dir);
        if h.0 && h.1 < prev.dist {
            let point = ray_at(orig, dir, h.1);
            ScanS {
                dist: h.1,
                point: point,
                normal: v3_unit_total(v3_sub(point, s.center)),
                material: s.material,
            }
        } else {
            prev
        }
    }
}

/// The checkerboard tile color at ground coordinates `(px, pz)`: white on
/// odd tiles, tan on even ones, in 2-unit cells.
pub open spec fn checker_color(px: int, pz: int) -> Vec3S {
    let a = px / (2 * FX_SCALE as int);
    let b = pz / (2 * FX_SCALE as int);
    if (a + b) % 2 == 1 {
        v3_ones()
    } else {
        Vec3S { x: FX_SCALE as int, y: 45875, z: 19660 }
    }
}

/// The result of a nearest-hit query: whether anything was hit within range,
/// and the hit's distance, point, facing normal and material.
pub ghost struct HitS {
    pub hit: bool,
    pub distance: int,
    pub point: Vec3S,
    pub normal: Vec3S,
    pub material: MaterialS,
}

/// Nearest hit against every sphere and then the checkerboard ground plane
/// at `y == -4`, bounded to `|x| < 10`, `z > -30`.
pub open spec fn scene_hit(spheres: Seq<SphereS>, orig: Vec3S, dir: Vec3S) -> HitS {
    let sc = scan_spheres(spheres, orig, dir, spheres.len() as int);
    let plane_live = iabs(dir.y) > PLANE_EPS as int;
    let d = fdiv(fneg(fadd(orig.y, 4 * (FX_SCALE as int))), dir.y);
    let pt = ray_at(orig, dir, d);
    if plane_live && d > 0 && iabs(pt.x) < 10 * (FX_SCALE as int) && pt.z > -30 * (
    FX_SCALE as int) && d < sc.dist {
        HitS {
            hit: d < MAX_DIST as int,
            distance: d,
            point: pt,
            normal: Vec3S { x: 0, y: FX_SCALE as int, z: 0 },
            material: MaterialS {
                albedo: (FX_SCALE as int, 0, 0, 0),
                diffuse_color: checker_color(pt.x, pt.z),
                specular_exponent: 1,
                refractive_index: FX_SCALE as int,
            },
        }
    } else {
        HitS {
            hit: sc.dist < MAX_DIST as int,
            distance: sc.dist,
            point: sc.point,
            normal: sc.normal,
            material: sc.material,
        }
    }
}

/// Mirror reflection of `i` about the normal `n`.
pub open spec fn reflect_s(i: Vec3S, n: Vec3S) -> Vec3S {
    v3_sub(i, v3_scale(n, fmul(2 * (FX_SCALE as int), v3_dot(i, n))))
}

/// Refraction of `i` at a surface with normal `n` by Snell's law, from a
/// medium of index `eta_i` into one of index `eta_t`. A ray found to be
/// exiting (negative incidence cosine) flips the normal and swaps the index
/// ratio once. Total internal reflection, and a degenerate zero index,
/// yield the sentinel direction `(1, 0, 0)` instead of bending.
pub open spec fn refract_s(i: Vec3S, n: Vec3S, eta_t: int, eta_i: int, flips: nat) -> Vec3S
    decreases flips,
{
    let cos_i = fneg(fmax(-(FX_SCALE as int), fmin(FX_SCALE as int, v3_dot(i, n))));
    if cos_i < 0 && flips > 0 {
        refract_s(i, v3_neg(n), eta_i, eta_t, (flips - 1) as nat)
    } else if eta_t == 0 {
        Vec3S { x: FX_SCALE as int, y: 0, z: 0 }
    } else {
        let eta = fdiv(eta_i, eta_t);
        let k = fsub(FX_SCALE as int, fmul(fmul(eta, eta), fsub(FX_SCALE as int, fmul(cos_i,
        cos_i))));
        if k < 0 {
            Vec3S { x: FX_SCALE as int, y: 0, z: 0 }
        } else {
            v3_add(v3_scale(i, eta), v3_scale(n, fsub(fmul(eta, cos_i), fsqrt(k))))
        }
    }
}

/// The shadow-ray origin or a recursive-ray origin: the hit point pushed a
/// little along the normal, toward the side the outgoing direction leaves by.
pub open spec fn offset_point(p: Vec3S, n: Vec3S, outgoing: Vec3S, eps: int) -> Vec3S {
    if v3_dot(outgoing, n) >= 0 {
        v3_add(p, v3_scale(n, eps))
    } else {
        v3_add(p, v3_scale(n, fneg(eps)))
    }
}

/// Whether the point is in shadow with respect to this light: the shadow ray
/// from the offset origin hits something, and the occluder lies nearer than
/// the light by the inherited magnitude comparison, which measures the light
/// *direction* vector against the hit point rather than the true distance to
/// the light.
pub open spec fn shadowed(
    spheres: Seq<SphereS>,
    light: LightS,
    point: Vec3S,
    normal: Vec3S,
    eps: int,
) -> bool {
    let ldir = v3_unit_total(v3_sub(light.position, point));
    let sorig = offset_point(point, normal, ldir, eps);
    let sh = scene_hit(spheres, sorig, ldir);
    sh.hit && v3_len(v3_sub(sh.point, sorig)) < v3_len(v3_sub(ldir, point))
}

/// What one light adds to the diffuse and specular intensities at a hit:
/// nothing at all when the point is in shadow, else the Lambertian and Phong
/// terms weighted by the light's intensity.
pub open spec fn light_contrib(
    spheres: Seq<SphereS>,
    light: LightS,
    point: Vec3S,
    normal: Vec3S,
    dir: Vec3S,
    m: MaterialS,
    eps: int,
) -> (int, int) {
    if shadowed(spheres, light, point, normal, eps) {
        (0, 0)
    } else {
        let ldir = v3_unit_total(v3_sub(light.position, point));
        let di = fmul(fmax(0, v3_dot(ldir, normal)), light.intensity);
        let si = fmul(
            fpow(fmax(0, v3_dot(reflect_s(ldir, normal), v3_neg(dir))), m.specular_exponent),
            light.intensity,
        );
        (di, si)
    }
}

/// Total diffuse and specular intensities over the first `n` lights.
pub open spec fn lights_accum(
    spheres: Seq<SphereS>,
    lights: Seq<LightS>,
    n: int,
    point: Vec3S,
    normal: Vec3S,
    dir: Vec3S,
    m: MaterialS,
    eps: int,
) -> (int, int)
    decreases n,
{
    if n <= 0 {
        (0, 0)
    } else {
        let prev = lights_accum(spheres, lights, n - 1, point, normal, dir, m, eps);
        let c = light_contrib(spheres, lights[n - 1], point, normal, dir, m, eps);
        (fadd(prev.0, c.0), fadd(prev.1, c.1))
    }
}

/// The model of the render configuration.
pub ghost struct ConfigS {
    pub tan_half_fov: int,
    pub background_color: Vec3S,
    pub max_recursion_depth: nat,
    pub shadow_epsilon: int,
}

/// The configuration a render runs under: the tangent of half the field of
/// view, the background color, the recursion cap and the self-intersection
/// epsilon.
#[derive(Clone, Copy, Debug)]
pub struct RenderConfig {
    pub tan_half_fov: Fx,
    pub background_color: Vec3,
    pub max_recursion_depth: u8,
    pub shadow_epsilon: Fx,
}

impl View for RenderConfig {
    type V = ConfigS;

    open spec fn view(&self) -> ConfigS {
        ConfigS {
            tan_half_fov: self.tan_half_fov@,
            background_color: self.background_color@,
            max_recursion_depth: self.max_recursion_depth as nat,
            shadow_epsilon: self.shadow_epsilon@,
        }
    }
}

impl RenderConfig {
    /// The standard configuration: a 60-degree field of view (stored as the
    /// tangent of half that angle), the standard background color, ten
    /// levels of recursion, and a ten-thousandth of a unit of offset.
    pub fn standard() -> (r: RenderConfig)
        ensures
            r@.tan_half_fov == 37837,
            r@.background_color == background_color_s(),
            r@.max_recursion_depth == 10,
            r@.shadow_epsilon == 7,
    {
        RenderConfig {
            tan_half_fov: Fx { v: 37837 },
            background_color: Vec3 {
                x: Fx { v: 13107 },
                y: Fx { v: 45875 },
                z: Fx { v: 52428 },
            },
            max_recursion_depth: 10,
            shadow_epsilon: Fx { v: 7 },
        }
    }
}

/// The color assigned to a ray: background at the recursion floor or on a
/// miss; otherwise the albedo-weighted blend of the diffuse, specular,
/// reflected and refracted contributions.
pub open spec fn cast_s(
    spheres: Seq<SphereS>,
    lights: Seq<LightS>,
    orig: Vec3S,
    dir: Vec3S,
    depth: nat,
    cfg: ConfigS,
) -> Vec3S
    decreases cfg.max_recursion_depth + 1 - depth,
{
    if depth > cfg.max_recursion_depth {
        cfg.background_color
    } else {
        let h = scene_hit(spheres, orig, dir);
        if !h.hit {
            cfg.background_color
        } else {
            let refl_dir = v3_unit_total(reflect_s(dir, h.normal));
            let refr_dir = v3_unit_total(
                refract_s(dir, h.normal, h.material.refractive_index, FX_SCALE as int, 1),
            );
            let refl_orig = offset_point(h.point, h.normal, refl_dir, cfg.shadow_epsilon);
            let refr_orig = offset_point(h.point, h.normal, refr_dir, cfg.shadow_epsilon);
            let refl_col = cast_s(spheres, lights, refl_orig, refl_dir, depth + 1, cfg);
            let refr_col = cast_s(spheres, lights, refr_orig, refr_dir, depth + 1, cfg);
            let acc = lights_accum(
                spheres,
                lights,
                lights.len() as int,
                h.point,
                h.normal,
                dir,
                h.material,
                cfg.shadow_epsilon,
            );
            v3_add(
                v3_add(
                    v3_add(
                        v3_scale(v3_scale(h.material.diffuse_color, acc.0), h.material.albedo.0),
                        v3_scale(v3_scale(v3_ones(), acc.1), h.material.albedo.1),
                    ),
                    v3_scale(refl_col, h.material.albedo.2),
                ),
                v3_scale(refr_col, h.material.albedo.3),
            )
        }
    }
}

/// The hit data a nearest-hit query returns.
#[derive(Clone, Copy, Debug)]
pub struct HitRecord {
    pub hit: bool,
    pub distance: Fx,
    pub point: Vec3,
    pub normal: Vec3,
    pub material: Material,
}

impl View for HitRecord {
    type V = HitS;

    open spec fn view(&self) -> HitS {
        HitS {
            hit: self.hit,
            distance: self.distance@,
            point: self.point@,
            normal: self.normal@,
            material: self.material@,
        }
    }
}

/// The background material as a value.
pub fn background_material() -> (r: Material)
    ensures
        r@ == background_material_s(),
{
    Material {
        albedo: (Fx::one(), Fx::zero(), Fx::zero(), Fx::zero()),
        diffuse_color: Vec3 { x: Fx { v: 13107 }, y: Fx { v: 45875 }, z: Fx { v: 52428 } },
        specular_exponent: 1,
        refractive_index: Fx::one(),
    }
}

/// Mirror reflection of `i` about `n`.
pub fn reflect(i: Vec3, n: Vec3) -> (r: Vec3)
    ensures
        r@ == reflect_s(i@, n@),
{
    i.sub(n.mul_const(Fx::from_int(2).mul(i.dot(n))))
}

fn refract_go(i: Vec3, n: Vec3, eta_t: Fx, eta_i: Fx, flips: u32) -> (r: Vec3)
    ensures
        r@ == refract_s(i@, n@, eta_t@, eta_i@, flips as nat),
    decreases flips,
{
    let cos_i = i.dot(n).min(Fx::one()).max(Fx::one().neg()).neg();
    if cos_i.v < 0 && flips > 0 {
        refract_go(i, n.neg(), eta_i, eta_t, flips - 1)
    } else if eta_t.v == 0 {
        Vec3 { x: Fx::one(), y: Fx::zero(), z: Fx::zero() }
    } else {
        let eta = eta_i.div(eta_t);
        let k = Fx::one().sub(eta.mul(eta).mul(Fx::one().sub(cos_i.mul(cos_i))));
        if k.v < 0 {
            Vec3 { x: Fx::one(), y: Fx::zero(), z: Fx::zero() }
        } else {
            i.mul_const(eta).add(n.mul_const(eta.mul(cos_i).sub(k.sqrt())))
        }
    }
}

/// Refraction direction by Snell's law, with at most one exit flip.
pub fn refract(i: Vec3, n: Vec3, eta_t: Fx, eta_i: Fx) -> (r: Vec3)
    ensures
        r@ == refract_s(i@, n@, eta_t@, eta_i@, 1),
{
    refract_go(i, n, eta_t, eta_i, 1)
}

/// `b` raised to the power `e` in scaled arithmetic.
pub fn fx_pow(b: Fx, e: u32) -> (r: Fx)
    ensures
        r@ == fpow(b@, e as nat),
{
    let mut acc = Fx::one();
    let mut k: u32 = 0;
    while k < e
        invariant
            k <= e,
            acc@ == fpow(b@, k as nat),
        decreases e - k,
    {
        acc = b.mul(acc);
        k = k + 1;
    }
    acc
}

/// Nearest hit of the ray against every sphere and the checkerboard plane.
pub fn spheres_intercects(orig: Vec3, dir: Vec3, spheres: &Vec<Sphere>) -> (h: HitRecord)
    ensures
        h@ == scene_hit(spheres_views(spheres@), orig@, dir@),
{
    let ghost vs = spheres_views(spheres@);
    let mut best_dist = Fx { v: FX_LIMIT };
    let mut point = Vec3::zero();
    let mut normal = Vec3::zero();
    let mut material = background_material();
    let mut i: usize = 0;
    while i < spheres.len()
        invariant
            i <= spheres@.len(),
            vs == spheres_views(spheres@),
            best_dist@ == scan_spheres(vs, orig@, dir@, i as int).dist,
            point@ == scan_spheres(vs, orig@, dir@, i as int).point,
            normal@ == scan_spheres(vs, orig@, dir@, i as int).normal,
            material@ == scan_spheres(vs, orig@, dir@, i as int).material,
        decreases spheres@.len() - i,
    {
        let s = spheres[i];
        proof {
            assert(vs[i as int] == spheres@[i as int]@);
        }
        let (h, d) = s.ray_intersects(orig, dir);
        if h && d.v < best_dist.v {
            best_dist = d;
            point = orig.add(dir.mul_const(d));
            normal = point.sub(s.center).unit_or_zero();
            material = s.material;
        }
        i = i + 1;
    }
    let ay = if dir.y.v < 0 {
        dir.y.neg()
    } else {
        dir.y
    };
    proof {
        assert(ay@ > PLANE_EPS as int <==> iabs(dir.y@) > PLANE_EPS as int);
    }
    if ay.v > PLANE_EPS {
        let d = orig.y.add(Fx::from_int(4)).neg().div(dir.y);
        let pt = orig.add(dir.mul_const(d));
        let pax = if pt.x.v < 0 {
            pt.x.neg()
        } else {
            pt.x
        };
        proof {
            assert(pax@ == iabs(pt.x@));
        }
        if d.v > 0 && pax.v < 10 * FX_SCALE && pt.z.v > -30 * FX_SCALE && d.v < best_dist.v {
            let fa = floor_div_exec(pt.x.v, 2 * FX_SCALE);
            let fb = floor_div_exec(pt.z.v, 2 * FX_SCALE);
            let m: i64 = fa + fb;
            let shifted: u64 = (m + 0x4000_0000_0000_0000i64) as u64;
            let par: u64 = shifted % 2;
            proof {
                vstd::arithmetic::div_mod::lemma_mod_multiples_vanish(
                    0x2000_0000_0000_0000,
                    m as int,
                    2,
                );
            }
            let col = if par == 1 {
                Vec3::ones()
            } else {
                Vec3 { x: Fx::one(), y: Fx { v: 45875 }, z: Fx { v: 19660 } }
            };
            best_dist = d;
            point = pt;
            normal = Vec3 { x: Fx::zero(), y: Fx::one(), z: Fx::zero() };
            material = Material {
                albedo: (Fx::one(), Fx::zero(), Fx::zero(), Fx::zero()),
                diffuse_color: col,
                specular_exponent: 1,
                refractive_index: Fx::one(),
            };
        }
    }
    HitRecord { hit: best_dist.v < MAX_DIST, distance: best_dist, point, normal, material }
}

/// The color a ray takes on, cast into the scene at the given recursion
/// depth. Past the depth cap, and on a miss, this is exactly the configured
/// background color.
pub fn cast_ray(
    orig: Vec3,
    dir: Vec3,
    spheres: &Vec<Sphere>,
    lights: &Vec<Light>,
    depth: usize,
    cfg: &RenderConfig,
) -> (c: Vec3)
    ensures
        c@ == cast_s(
            spheres_views(spheres@),
            lights_views(lights@),
            orig@,
            dir@,
            depth as nat,
            cfg@,
        ),
        depth as nat > cfg@.max_recursion_depth ==> c@ == cfg@.background_color,
    decreases cfg@.max_recursion_depth + 1 - depth as nat,
{
    if depth > cfg.max_recursion_depth as usize {
        return cfg.background_color;
    }
    let h = spheres_intercects(orig, dir, spheres);
    if !h.hit {
        return cfg.background_color;
    }
    let refl_dir = reflect(dir, h.normal).unit_or_zero();
    let refr_dir = refract(dir, h.normal, h.material.refractive_index, Fx::one()).unit_or_zero();
    let refl_orig = offset_exec(h.point, h.normal, refl_dir, cfg.shadow_epsilon);
    let refr_orig = offset_exec(h.point, h.normal, refr_dir, cfg.shadow_epsilon);
    let refl_col = cast_ray(refl_orig, refl_dir, spheres, lights, depth + 1, cfg);
    let refr_col = cast_ray(refr_orig, refr_dir, spheres, lights, depth + 1, cfg);
    let (diffuse_intensity, specular_intensity) = accumulate_lights(
        h,
        dir,
        spheres,
        lights,
        cfg.shadow_epsilon,
    );
    h.material.diffuse_color
        .mul_const(diffuse_intensity)
        .mul_const(h.material.albedo.0)
        .add(Vec3::ones().mul_const(specular_intensity).mul_const(h.material.albedo.1))
        .add(refl_col.mul_const(h.material.albedo.2))
        .add(refr_col.mul_const(h.material.albedo.3))
}

/// Total diffuse and specular intensities contributed by all lights at the
/// hit `h`.
fn accumulate_lights(
    h: HitRecord,
    dir: Vec3,
    spheres: &Vec<Sphere>,
    lights: &Vec<Light>,
    eps: Fx,
) -> (r: (Fx, Fx))
    ensures
        r.0@ == lights_accum(
            spheres_views(spheres@),
            lights_views(lights@),
            lights@.len() as int,
            h@.point,
            h@.normal,
            dir@,
            h@.material,
            eps@,
        ).0,
        r.1@ == lights_accum(
            spheres_views(spheres@),
            lights_views(lights@),
            lights@.len() as int,
            h@.point,
            h@.normal,
            dir@,
            h@.material,
            eps@,
        ).1,
{
    let ghost vs = spheres_views(spheres@);
    let ghost ls = lights_views(lights@);
    let mut diffuse_intensity = Fx::zero();
    let mut specular_intensity = Fx::zero();
    let mut j: usize = 0;
    while j < lights.len()
        invariant
            j <= lights@.len(),
            vs == spheres_views(spheres@),
            ls == lights_views(lights@),
            diffuse_intensity@ == lights_accum(
                vs,
                ls,
                j as int,
                h@.point,
                h@.normal,
                dir@,
                h@.material,
                eps@,
            ).0,
            specular_intensity@ == lights_accum(
                vs,
                ls,
                j as int,
                h@.point,
                h@.normal,
                dir@,
                h@.material,
                eps@,
            ).1,
        decreases lights@.len() - j,
    {
        let light = lights[j];
        proof {
            assert(ls[j as int] == lights@[j as int]@);
        }
        let (di, si) = light_contrib_exec(light, h, dir, spheres, eps);
        diffuse_intensity = diffuse_intensity.add(di);
        specular_intensity = specular_intensity.add(si);
        j = j + 1;
    }
    (diffuse_intensity, specular_intensity)
}

/// Push a point a little along the normal, toward the side `outgoing`
/// leaves by.
fn offset_exec(p: Vec3, n: Vec3, outgoing: Vec3, eps: Fx) -> (r: Vec3)
    ensures
        r@ == offset_point(p@, n@, outgoing@, eps@),
{
    if outgoing.dot(n).v >= 0 {
        p.add(n.mul_const(eps))
    } else {
        p.add(n.mul_const(eps.neg()))
    }
}

/// What one light adds to the diffuse and specular intensities at the hit
/// `h`; exactly zero when the light is shadowed.
pub fn light_contrib_exec(
    light: Light,
    h: HitRecord,
    dir: Vec3,
    spheres: &Vec<Sphere>,
    eps: Fx,
) -> (r: (Fx, Fx))
    ensures
        r.0@ == light_contrib(
            spheres_views(spheres@),
            light@,
            h@.point,
            h@.normal,
            dir@,
            h@.material,
            eps@,
        ).0,
        r.1@ == light_contrib(
            spheres_views(spheres@),
            light@,
            h@.point,
            h@.normal,
            dir@,
            h@.material,
            eps@,
        ).1,
{
    let ldir = light.position.sub(h.point).unit_or_zero();
    let sorig = offset_exec(h.point, h.normal, ldir, eps);
    let sh = spheres_intercects(sorig, ldir, spheres);
    if sh.hit && sh.point.sub(sorig).len().v < ldir.sub(h.point).len().v {
        (Fx::zero(), Fx::zero())
    } else {
        let di = Fx::zero().max(ldir.dot(h.normal)).mul(light.intensity);
        let si = fx_pow(
            Fx::zero().max(reflect(ldir, h.normal).dot(dir.neg())),
            h.material.specular_exponent,
        ).mul(light.intensity);
        (di, si)
    }
}

} // verus!
