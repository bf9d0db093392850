//! Three-component vectors over fixed-point scalars, used both for points in
//! space and for colors, together with the conversion to an 8-bit channel
//! triple for display.

use vstd::prelude::*;
use crate::fx::{
    fadd, fdiv, fmax, fmul, fneg, fsqrt, fsub, iabs, tdiv, Fx, FX_LIMIT, FX_SCALE,
};

verus! {

/// The mathematical model of a vector: three unbounded scaled integers.
pub ghost struct Vec3S {
    pub x: int,
    pub y: int,
    pub z: int,
}

pub open spec fn v3_zero() -> Vec3S {
    Vec3S { x: 0, y: 0, z: 0 }
}

pub open spec fn v3_ones() -> Vec3S {
    Vec3S { x: FX_SCALE as int, y: FX_SCALE as int, z: FX_SCALE as int }
}

pub open spec fn v3_add(a: Vec3S, b: Vec3S) -> Vec3S {
    Vec3S { x: fadd(a.x, b.x), y: fadd(a.y, b.y), z: fadd(a.z, b.z) }
}

pub open spec fn v3_sub(a: Vec3S, b: Vec3S) -> Vec3S {
    Vec3S { x: fsub(a.x, b.x), y: fsub(a.y, b.y), z: fsub(a.z, b.z) }
}

/// Component-wise product, used for masking and tinting.
pub open spec fn v3_cmul(a: Vec3S, b: Vec3S) -> Vec3S {
    Vec3S { x: fmul(a.x, b.x), y: fmul(a.y, b.y), z: fmul(a.z, b.z) }
}

/// Component-wise quotient.
pub open spec fn v3_cdiv(a: Vec3S, b: Vec3S) -> Vec3S
    recommends
        b.x != 0,
        b.y != 0,
        b.z != 0,
{
    Vec3S { x: fdiv(a.x, b.x), y: fdiv(a.y, b.y), z: fdiv(a.z, b.z) }
}

pub open spec fn v3_scale(a: Vec3S, c: int) -> Vec3S {
    Vec3S { x: fmul(a.x, c), y: fmul(a.y, c), z: fmul(a.z, c) }
}

pub open spec fn v3_neg(a: Vec3S) -> Vec3S {
    Vec3S { x: fneg(a.x), y: fneg(a.y), z: fneg(a.z) }
}

/// Scalar product.
pub open spec fn v3_dot(a: Vec3S, b: Vec3S) -> int {
    fadd(fadd(fmul(a.x, b.x), fmul(a.y, b.y)), fmul(a.z, b.z))
}

/// Euclidean length, rounded down to the representation step.
pub open spec fn v3_len(a: Vec3S) -> int {
    fsqrt(v3_dot(a, a))
}

/// The unit vector in the direction of `a`; meaningful only when the
/// computed length is positive, that is when `v3_dot(a, a) >= 1`.
pub open spec fn v3_unit(a: Vec3S) -> Vec3S
    recommends
        v3_dot(a, a) >= 1,
{
    Vec3S {
        x: fdiv(a.x, v3_len(a)),
        y: fdiv(a.y, v3_len(a)),
        z: fdiv(a.z, v3_len(a)),
    }
}

/// Normalization made total: a vector too short to carry a direction at this
/// resolution maps to the zero vector instead of dividing by zero.
pub open spec fn v3_unit_total(a: Vec3S) -> Vec3S {
    if v3_dot(a, a) >= 1 {
        v3_unit(a)
    } else {
        v3_zero()
    }
}

pub open spec fn v3_max_component(a: Vec3S) -> int {
    fmax(a.x, fmax(a.y, a.z))
}

/// One display channel: the corrected value rescaled to 0..255, truncated,
/// then saturated into a byte, as a float-to-byte cast would.
pub open spec fn byte_channel(c: int, corr: int) -> int {
    let t = tdiv(fmul(c, corr) * 255, FX_SCALE as int);
    if t < 0 {
        0
    } else if t > 255 {
        255
    } else {
        t
    }
}

/// Color conversion with soft highlight compression: if the largest channel
/// exceeds one, every channel is divided by it before rescaling.
pub open spec fn rgb_bytes(v: Vec3S) -> (u8, u8, u8) {
    let m = fmax(v3_max_component(v), FX_SCALE as int);
    let corr = fdiv(FX_SCALE as int, m);
    (
        byte_channel(v.x, corr) as u8,
        byte_channel(v.y, corr) as u8,
        byte_channel(v.z, corr) as u8,
    )
}

/// A product with itself, rescaled, is non-negative and clipped.
pub proof fn lemma_square_bounds(a: int)
    ensures
        0 <= fmul(a, a) <= FX_LIMIT as int,
{
    assert(a * a >= 0) by (nonlinear_arith);
    assert(iabs(a * a) / iabs(FX_SCALE as int) >= 0) by (nonlinear_arith)
        requires
            a * a >= 0,
    ;
}

/// A dot product of a vector with itself is non-negative and clipped.
pub proof fn lemma_dot_self_bounds(a: Vec3S)
    ensures
        0 <= v3_dot(a, a) <= FX_LIMIT as int,
{
    lemma_square_bounds(a.x);
    lemma_square_bounds(a.y);
    lemma_square_bounds(a.z);
}

/// A three-component vector of fixed-point scalars.
#[derive(Clone, Copy, Debug, PartialEq, Eq, Structural)]
pub struct Vec3 {
    pub x: Fx,
    pub y: Fx,
    pub z: Fx,
}

impl View for Vec3 {
    type V = Vec3S;

    open spec fn view(&self) -> Vec3S {
        Vec3S { x: self.x@, y: self.y@, z: self.z@ }
    }
}

impl Vec3 {
    pub fn new(x: Fx, y: Fx, z: Fx) -> (r: Vec3)
        ensures
            r@.x == x@ && r@.y == y@ && r@.z == z@,
    {
        Vec3 { x, y, z }
    }

    /// The origin, also the black color.
    pub fn zero() -> (r: Vec3)
        ensures
            r@ == v3_zero(),
    {
        Vec3 { x: Fx::zero(), y: Fx::zero(), z: Fx::zero() }
    }

    /// The all-ones vector, also the white color.
    pub fn ones() -> (r: Vec3)
        ensures
            r@ == v3_ones(),
    {
        Vec3 { x: Fx::one(), y: Fx::one(), z: Fx::one() }
    }

    pub fn add(self, rhs: Vec3) -> (r: Vec3)
        ensures
            r@ == v3_add(self@, rhs@),
    {
        Vec3 { x: self.x.add(rhs.x), y: self.y.add(rhs.y), z: self.z.add(rhs.z) }
    }

    pub fn sub(self, rhs: Vec3) -> (r: Vec3)
        ensures
            r@ == v3_sub(self@, rhs@),
    {
        Vec3 { x: self.x.sub(rhs.x), y: self.y.sub(rhs.y), z: self.z.sub(rhs.z) }
    }

    /// Component-wise product.
    pub fn mul(self, rhs: Vec3) -> (r: Vec3)
        ensures
            r@ == v3_cmul(self@, rhs@),
    {
        Vec3 { x: self.x.mul(rhs.x), y: self.y.mul(rhs.y), z: self.z.mul(rhs.z) }
    }

    /// Component-wise quotient.
    pub fn div(self, rhs: Vec3) -> (r: Vec3)
        requires
            rhs@.x != 0,
            rhs@.y != 0,
            rhs@.z != 0,
        ensures
            r@ == v3_cdiv(self@, rhs@),
    {
        Vec3 { x: self.x.div(rhs.x), y: self.y.div(rhs.y), z: self.z.div(rhs.z) }
    }

    pub fn mul_const(self, c: Fx) -> (r: Vec3)
        ensures
            r@ == v3_scale(self@, c@),
    {
        Vec3 { x: self.x.mul(c), y: self.y.mul(c), z: self.z.mul(c) }
    }

    pub fn neg(self) -> (r: Vec3)
        ensures
            r@ == v3_neg(self@),
    {
        Vec3 { x: self.x.neg(), y: self.y.neg(), z: self.z.neg() }
    }

    /// Scalar product.
    pub fn dot(self, rhs: Vec3) -> (r: Fx)
        ensures
            r@ == v3_dot(self@, rhs@),
    {
        self.x.mul(rhs.x).add(self.y.mul(rhs.y)).add(self.z.mul(rhs.z))
    }

    pub fn len(self) -> (r: Fx)
        ensures
            r@ == v3_len(self@),
    {
        proof {
            lemma_dot_self_bounds(self@);
        }
        self.dot(self).sqrt()
    }

    /// Normalization; the caller owes a vector long enough to carry a
    /// direction, that is one whose computed squared length is positive.
    pub fn normalize(self) -> (r: Vec3)
        requires
            v3_dot(self@, self@) >= 1,
        ensures
            r@ == v3_unit(self@),
    {
        proof {
            lemma_dot_self_bounds(self@);
            crate::fx::lemma_sqrt_floor((v3_dot(self@, self@) * FX_SCALE as int) as nat);
            assert(v3_len(self@) >= 1) by {
                let d = v3_dot(self@, self@);
                let s = crate::fx::sqrt_floor((d * FX_SCALE as int) as nat);
                if s == 0 {
                    assert((s + 1) * (s + 1) == 1) by (nonlinear_arith)
                        requires
                            s == 0nat,
                    ;
                }
            }
        }
        let l = self.len();
        Vec3 { x: self.x.div(l), y: self.y.div(l), z: self.z.div(l) }
    }

    /// Normalization made total: a vector too short for a direction becomes
    /// the zero vector instead of dividing by zero.
    pub fn unit_or_zero(self) -> (r: Vec3)
        ensures
            r@ == v3_unit_total(self@),
    {
        let d = self.dot(self);
        if d.v >= 1 {
            self.normalize()
        } else {
            Vec3::zero()
        }
    }

    pub(crate) fn max_component(self) -> (r: Fx)
        ensures
            r@ == v3_max_component(self@),
    {
        self.x.max(self.y.max(self.z))
    }

    /// Convert to one byte per channel for display, compressing highlights by
    /// the largest channel and truncating, never rounding.
    pub fn to_rgb_bytes(self) -> (r: (u8, u8, u8))
        ensures
            r == rgb_bytes(self@),
    {
        let m = self.max_component().max(Fx::one());
        let corr = Fx::one().div(m);
        (
            byte_of(self.x.mul(corr)),
            byte_of(self.y.mul(corr)),
            byte_of(self.z.mul(corr)),
        )
    }
}

/// Rescale an already-corrected channel to 0..255 and saturate into a byte.
fn byte_of(t: Fx) -> (b: u8)
    requires
        iabs(t@) <= FX_LIMIT as int,
    ensures
        b as int == byte_channel_scaled(t@),
{
    let s: i64 = t.v * 255;
    let q: i64 = tdiv64(s, FX_SCALE);
    if q < 0 {
        0
    } else if q > 255 {
        255
    } else {
        q as u8
    }
}

/// The channel value once the corrector has already been applied.
pub open spec fn byte_channel_scaled(t: int) -> int {
    let q = tdiv(t * 255, FX_SCALE as int);
    if q < 0 {
        0
    } else if q > 255 {
        255
    } else {
        q
    }
}

/// Truncated division on machine words.
fn tdiv64(p: i64, d: i64) -> (q: i64)
    requires
        d != 0,
        i64::MIN < p,
        i64::MIN < d,
    ensures
        q as int == tdiv(p as int, d as int),
        iabs(q as int) <= iabs(p as int),
{
    let pn: u64 = if p < 0 {
        (-p) as u64
    } else {
        p as u64
    };
    let dn: u64 = if d < 0 {
        (-d) as u64
    } else {
        d as u64
    };
    assert(pn as int == iabs(p as int));
    assert(dn as int == iabs(d as int));
    let qn: u64 = pn / dn;
    assert(qn as int <= pn as int) by (nonlinear_arith)
        requires
            dn >= 1,
            qn as int == pn as int / dn as int,
            pn >= 0,
    ;
    if (p < 0) != (d < 0) {
        -(qn as i64)
    } else {
        qn as i64
    }
}

} // verus!
