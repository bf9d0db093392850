//! The algebraic and optical laws the tracer obeys, stated and proved over
//! the same models the executable contracts use.

use vstd::prelude::*;
use crate::fx::{
    fdiv, fmax, fmin, fmul, fneg, fsqrt, fsub, iabs, lemma_fmul_one, lemma_sqrt_floor_unique,
    lemma_tdiv_mul_cancel, tdiv, FX_LIMIT, FX_SCALE,
};
use crate::light::LightS;
use crate::material::MaterialS;
use crate::sphere::SphereS;
use crate::trace::{cast_s, light_contrib, refract_s, shadowed, ConfigS};
use crate::vec3::{v3_add, v3_dot, Vec3S};
use crate::render::pixel_color;

verus! {

/// Vector addition is commutative: `a + b == b + a`, clipping included.
pub proof fn lemma_add_comm(a: Vec3S, b: Vec3S)
    ensures
        v3_add(a, b) == v3_add(b, a),
{
}

/// Vector addition is associative, `(a + b) + c == a + (b + c)`, on every
/// input where neither grouping saturates: the partial sums must lie within
/// the representable range.
pub proof fn lemma_add_assoc(a: Vec3S, b: Vec3S, c: Vec3S)
    requires
        iabs(a.x + b.x) <= FX_LIMIT as int,
        iabs(a.y + b.y) <= FX_LIMIT as int,
        iabs(a.z + b.z) <= FX_LIMIT as int,
        iabs(b.x + c.x) <= FX_LIMIT as int,
        iabs(b.y + c.y) <= FX_LIMIT as int,
        iabs(b.z + c.z) <= FX_LIMIT as int,
    ensures
        v3_add(v3_add(a, b), c) == v3_add(a, v3_add(b, c)),
{
}

/// The scalar product is commutative: `a · b == b · a`.
pub proof fn lemma_dot_comm(a: Vec3S, b: Vec3S)
    ensures
        v3_dot(a, b) == v3_dot(b, a),
{
    assert(a.x * b.x == b.x * a.x) by (nonlinear_arith);
    assert(a.y * b.y == b.y * a.y) by (nonlinear_arith);
    assert(a.z * b.z == b.z * a.z) by (nonlinear_arith);
}

/// A light that is shadowed - its shadow ray hits an occluder nearer than
/// the light by the tracer's distance comparison - contributes exactly
/// nothing: neither diffuse nor specular intensity.
pub proof fn lemma_shadowed_light_contributes_nothing(
    spheres: Seq<SphereS>,
    light: LightS,
    point: Vec3S,
    normal: Vec3S,
    dir: Vec3S,
    m: MaterialS,
    eps: int,
)
    requires
        shadowed(spheres, light, point, normal, eps),
    ensures
        light_contrib(spheres, light, point, normal, dir, m, eps) == (0int, 0int),
{
}

/// The recursion floor: past the configured depth cap, a cast returns
/// exactly the background color, whatever the scene holds - in particular in
/// a closed configuration of two facing mirrors. Together with the
/// verifier's termination check on the cast itself, this bounds every bounce
/// chain for any cap.
pub proof fn lemma_recursion_floor(
    spheres: Seq<SphereS>,
    lights: Seq<LightS>,
    orig: Vec3S,
    dir: Vec3S,
    depth: nat,
    cfg: ConfigS,
)
    requires
        depth > cfg.max_recursion_depth,
    ensures
        cast_s(spheres, lights, orig, dir, depth, cfg) == cfg.background_color,
{
}

/// Refraction at dead-center normal incidence through an index of one: the
/// ray passes through unbent, exactly. The incident vector must be a valid
/// clipped value striking head-on, that is with a full negative unit cosine.
pub proof fn lemma_refract_normal_incidence_identity(i: Vec3S, n: Vec3S)
    requires
        v3_dot(i, n) == -(FX_SCALE as int),
        iabs(i.x) <= FX_LIMIT as int,
        iabs(i.y) <= FX_LIMIT as int,
        iabs(i.z) <= FX_LIMIT as int,
    ensures
        refract_s(i, n, FX_SCALE as int, FX_SCALE as int, 1) == i,
{
    let s = FX_SCALE as int;
    let cos_i = fneg(fmax(-s, fmin(s, v3_dot(i, n))));
    assert(cos_i == s);
    lemma_tdiv_mul_cancel(s, s);
    assert(fdiv(s, s) == s);
    lemma_fmul_one(s);
    assert(fmul(s, s) == s);
    assert(tdiv(0, s) == 0);
    assert(fmul(s, 0) == 0);
    assert(fsub(s, fmul(fmul(s, s), fsub(s, fmul(cos_i, cos_i)))) == s);
    assert((s * s) as nat == (s as nat) * (s as nat)) by (nonlinear_arith)
        requires
            s == 65536,
    ;
    assert((s as nat) * (s as nat) <= (s * s) as nat) by (nonlinear_arith)
        requires
            s == 65536,
    ;
    assert(((s * s) as nat) < ((s as nat) + 1) * ((s as nat) + 1)) by (nonlinear_arith)
        requires
            s == 65536,
    ;
    lemma_sqrt_floor_unique((s * s) as nat, s as nat);
    assert(fsqrt(s) == s);
    assert(fsub(fmul(s, cos_i), fsqrt(s)) == 0);
    lemma_fmul_one(i.x);
    lemma_fmul_one(i.y);
    lemma_fmul_one(i.z);
    assert(fmul(n.x, 0) == 0 && fmul(n.y, 0) == 0 && fmul(n.z, 0) == 0);
}

/// Rendering is deterministic: two rasters filled from the same scene,
/// configuration and dimensions hold identical pixels - there is no
/// randomness anywhere in the pipeline.
pub proof fn lemma_render_deterministic(
    p1: Map<(u32, u32), (u8, u8, u8)>,
    p2: Map<(u32, u32), (u8, u8, u8)>,
    spheres: Seq<SphereS>,
    lights: Seq<LightS>,
    cfg: ConfigS,
    w: u32,
    h: u32,
)
    requires
        forall|x: u32, y: u32|
            x < w && y < h ==> p1[(x, y)] == pixel_color(
                spheres,
                lights,
                cfg,
                w as int,
                h as int,
                x as int,
                y as int,
            ),
        forall|x: u32, y: u32|
            x < w && y < h ==> p2[(x, y)] == pixel_color(
                spheres,
                lights,
                cfg,
                w as int,
                h as int,
                x as int,
                y as int,
            ),
    ensures
        forall|x: u32, y: u32| x < w && y < h ==> p1[(x, y)] == p2[(x, y)],
{
    assert forall|x: u32, y: u32| x < w && y < h implies p1[(x, y)] == p2[(x, y)] by {
        assert(p1[(x, y)] == pixel_color(spheres, lights, cfg, w as int, h as int, x as int,
        y as int));
        assert(p2[(x, y)] == pixel_color(spheres, lights, cfg, w as int, h as int, x as int,
        y as int));
    }
}

} // verus!
