//! Spheres and the geometric ray-sphere intersection test.

use vstd::prelude::*;
use crate::fx::{fadd, fmul, fsqrt, fsub, Fx, FX_LIMIT};
use crate::material::{Material, MaterialS};
use crate::vec3::{v3_dot, v3_sub, Vec3, Vec3S};

verus! {

/// Smallest accepted hit distance, about a thousandth of a unit: a ray must
/// not immediately re-hit the surface it just left.
pub const HIT_EPS: i64 = 66;

/// The model of a sphere.
pub ghost struct SphereS {
    pub center: Vec3S,
    pub radius: int,
    pub material: MaterialS,
}

/// A sphere with a center, a radius and a material, immutable for the
/// lifetime of a render.
#[derive(Clone, Copy, Debug)]
pub struct Sphere {
    pub center: Vec3,
    pub radius: Fx,
    pub material: Material,
}

impl View for Sphere {
    type V = SphereS;

    open spec fn view(&self) -> SphereS {
        SphereS { center: self.center@, radius: self.radius@, material: self.material@ }
    }
}

/// The geometric intersection test: project the center onto the ray, compare
/// the squared perpendicular distance with the squared radius, and accept the
/// nearer candidate distance that clears `HIT_EPS`.
pub open spec fn sphere_hit(s: SphereS, orig: Vec3S, dir: Vec3S) -> (bool, int) {
    let l = v3_sub(s.center, orig);
    let tca = v3_dot(l, dir);
    let d2 = fsub(v3_dot(l, l), fmul(tca, tca));
    let r2 = fmul(s.radius, s.radius);
    if d2 > r2 {
        (false, 0)
    } else {
        let thc = fsqrt(fsub(r2, d2));
        let t0 = fsub(tca, thc);
        let t1 = fadd(tca, thc);
        if t0 > HIT_EPS as int {
            (true, t0)
        } else if t1 > HIT_EPS as int {
            (true, t1)
        } else {
            (false, 0)
        }
    }
}

impl Sphere {
    pub fn new(center: Vec3, radius: Fx, material: Material) -> (r: Sphere)
        ensures
            r@.center == center@,
            r@.radius == radius@,
            r@.material == material@,
    {
        Sphere { center, radius, material }
    }

    /// Whether the ray from `orig` along `dir` meets this sphere, and at what
    /// distance along the ray.
    pub fn ray_intersects(&self, orig: Vec3, dir: Vec3) -> (r: (bool, Fx))
        ensures
            r.0 == sphere_hit(self@, orig@, dir@).0,
            r.1@ == sphere_hit(self@, orig@, dir@).1,
    {
        let l = self.center.sub(orig);
        let tca = l.dot(dir);
        let d2 = l.dot(l).sub(tca.mul(tca));
        let r2 = self.radius.mul(self.radius);
        if d2.v > r2.v {
            (false, Fx::zero())
        } else {
            let under = r2.sub(d2);
            proof {
                crate::vec3::lemma_square_bounds(tca@);
                crate::vec3::lemma_square_bounds(self.radius@);
                assert(0 <= under@ <= FX_LIMIT as int);
            }
            let thc = under.sqrt();
            let t0 = tca.sub(thc);
            let t1 = tca.add(thc);
            if t0.v > HIT_EPS {
                (true, t0)
            } else if t1.v > HIT_EPS {
                (true, t1)
            } else {
                (false, Fx::zero())
            }
        }
    }
}

} // verus!
