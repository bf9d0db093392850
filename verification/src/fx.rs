//! Fixed-point scalars: the numeric ground the tracer stands on.
//!
//! A `Fx` stores a real quantity `q` as the integer `q * FX_SCALE`, truncated.
//! Every operation clips its result into `[-FX_LIMIT, FX_LIMIT]`, so all
//! arithmetic is total and the contracts below pin each result exactly.

use vstd::prelude::*;
use vstd::arithmetic::div_mod::lemma_fundamental_div_mod_converse;

verus! {

/// Number of representation steps in one real unit.
pub const FX_SCALE: i64 = 65536;

/// Largest magnitude a result may have after clipping.
pub const FX_LIMIT: i64 = 0x4000_0000_0000;

/// Saturate an unbounded result into the representable range.
pub open spec fn clip(x: int) -> int {
    if x > FX_LIMIT as int {
        FX_LIMIT as int
    } else if x < -(FX_LIMIT as int) {
        -(FX_LIMIT as int)
    } else {
        x
    }
}

/// Magnitude of an integer.
pub open spec fn iabs(x: int) -> int {
    if x < 0 {
        -x
    } else {
        x
    }
}

/// Division truncated toward zero, the rounding used by all scalar operations.
pub open spec fn tdiv(p: int, d: int) -> int
    recommends
        d != 0,
{
    let q = iabs(p) / iabs(d);
    if (p < 0) != (d < 0) {
        -q
    } else {
        q
    }
}

/// Sum, clipped.
pub open spec fn fadd(a: int, b: int) -> int {
    clip(a + b)
}

/// Difference, clipped.
pub open spec fn fsub(a: int, b: int) -> int {
    clip(a - b)
}

/// Negation, clipped.
pub open spec fn fneg(a: int) -> int {
    clip(-a)
}

/// Product of two scaled values, rescaled by `FX_SCALE` and clipped.
pub open spec fn fmul(a: int, b: int) -> int {
    clip(tdiv(a * b, FX_SCALE as int))
}

/// Quotient of two scaled values, rescaled by `FX_SCALE` and clipped.
pub open spec fn fdiv(a: int, b: int) -> int
    recommends
        b != 0,
{
    clip(tdiv(a * FX_SCALE, b))
}

/// The smaller operand.
pub open spec fn fmin(a: int, b: int) -> int {
    if a <= b {
        a
    } else {
        b
    }
}

/// The larger operand.
pub open spec fn fmax(a: int, b: int) -> int {
    if a >= b {
        a
    } else {
        b
    }
}

/// Integer square root, rounded down.
pub open spec fn sqrt_floor(x: nat) -> nat
    decreases x,
{
    if x == 0 {
        0
    } else {
        let r = sqrt_floor((x - 1) as nat);
        if x < (r + 1) * (r + 1) {
            r
        } else {
            r + 1
        }
    }
}

/// `sqrt_floor` is the floor of the real square root.
pub proof fn lemma_sqrt_floor(x: nat)
    ensures
        sqrt_floor(x) * sqrt_floor(x) <= x,
        x < (sqrt_floor(x) + 1) * (sqrt_floor(x) + 1),
    decreases x,
{
    if x == 0 {
        let s = sqrt_floor(x);
        assert(s == 0);
        assert(s * s <= x && x < (s + 1) * (s + 1)) by (nonlinear_arith)
            requires
                x == 0nat,
                s == 0nat,
        ;
    } else {
        let p = (x - 1) as nat;
        lemma_sqrt_floor(p);
        let r = sqrt_floor(p);
        if x < (r + 1) * (r + 1) {
            assert(sqrt_floor(x) == r);
            assert(r * r <= p);
        } else {
            assert(sqrt_floor(x) == r + 1);
            assert((r + 1) * (r + 1) < (r + 2) * (r + 2)) by (nonlinear_arith);
            assert(x < (r + 2) * (r + 2));
        }
    }
}

/// Truncated division undoes an exact product: `tdiv(a * d, d) == a`.
pub proof fn lemma_tdiv_mul_cancel(a: int, d: int)
    requires
        0 < d,
    ensures
        tdiv(a * d, d) == a,
{
    if a >= 0 {
        vstd::arithmetic::div_mod::lemma_div_multiples_vanish(a, d);
        assert(a * d == d * a) by (nonlinear_arith);
        assert(a * d >= 0) by (nonlinear_arith)
            requires
                a >= 0,
                d > 0,
        ;
    } else {
        vstd::arithmetic::div_mod::lemma_div_multiples_vanish(-a, d);
        assert(-(a * d) == d * (-a)) by (nonlinear_arith);
        assert(a * d < 0) by (nonlinear_arith)
            requires
                a < 0,
                d > 0,
        ;
    }
}

/// Multiplying by the scalar one is the identity on clipped values.
pub proof fn lemma_fmul_one(a: int)
    requires
        iabs(a) <= FX_LIMIT as int,
    ensures
        fmul(a, FX_SCALE as int) == a,
        fmul(FX_SCALE as int, a) == a,
{
    lemma_tdiv_mul_cancel(a, FX_SCALE as int);
    assert(FX_SCALE as int * a == a * FX_SCALE as int) by (nonlinear_arith);
}

/// The magnitude of a product is bounded by the product of the bounds.
pub proof fn lemma_mul_bound(a: int, b: int, m: int, n: int)
    by (nonlinear_arith)
    requires
        -m <= a <= m,
        -n <= b <= n,
        0 <= m,
        0 <= n,
    ensures
        -(m * n) <= a * b <= m * n,
{
}

/// Any root that brackets `x` is `sqrt_floor(x)`.
pub proof fn lemma_sqrt_floor_unique(x: nat, r: nat)
    requires
        r * r <= x,
        x < (r + 1) * (r + 1),
    ensures
        r == sqrt_floor(x),
{
    lemma_sqrt_floor(x);
    let s = sqrt_floor(x);
    if r < s {
        assert((r + 1) * (r + 1) <= s * s) by (nonlinear_arith)
            requires
                r + 1 <= s,
        ;
    }
    if s < r {
        assert((s + 1) * (s + 1) <= r * r) by (nonlinear_arith)
            requires
                s + 1 <= r,
        ;
    }
}

/// Square root of a scaled value: `sqrt(q) * FX_SCALE`, rounded down.
pub open spec fn fsqrt(a: int) -> int
    recommends
        0 <= a,
{
    sqrt_floor((a * FX_SCALE) as nat) as int
}

/// `b` raised to the integer power `e`, in scaled arithmetic.
pub open spec fn fpow(b: int, e: nat) -> int
    decreases e,
{
    if e == 0 {
        FX_SCALE as int
    } else {
        fmul(b, fpow(b, (e - 1) as nat))
    }
}

fn clip_exec(x: i128) -> (r: i64)
    ensures
        r as int == clip(x as int),
{
    if x > FX_LIMIT as i128 {
        FX_LIMIT
    } else if x < -(FX_LIMIT as i128) {
        -FX_LIMIT
    } else {
        x as i64
    }
}

fn tdiv_exec(p: i128, d: i128) -> (q: i128)
    requires
        d != 0,
        i128::MIN < p,
        i128::MIN < d,
    ensures
        q as int == tdiv(p as int, d as int),
        iabs(q as int) <= iabs(p as int),
{
    let pn: u128 = if p < 0 {
        (-p) as u128
    } else {
        p as u128
    };
    let dn: u128 = if d < 0 {
        (-d) as u128
    } else {
        d as u128
    };
    assert(pn as int == iabs(p as int));
    assert(dn as int == iabs(d as int));
    let qn: u128 = pn / dn;
    assert(qn as int <= pn as int) by (nonlinear_arith)
        requires
            dn >= 1,
            qn as int == pn as int / dn as int,
            pn >= 0,
    ;
    if (p < 0) != (d < 0) {
        -(qn as i128)
    } else {
        qn as i128
    }
}

/// Floor division by a positive divisor, used for checkerboard tiling.
pub fn floor_div_exec(a: i64, d: i64) -> (q: i64)
    requires
        0 < d,
        i64::MIN < a,
    ensures
        q as int == a as int / d as int,
{
    if a >= 0 {
        proof {
            assert(0 <= a as int / d as int <= a as int) by (nonlinear_arith)
                requires
                    d >= 1,
                    a >= 0,
            ;
        }
        a / d
    } else {
        let m: i64 = -a;
        let q0: i64 = m / d;
        let r0: i64 = m % d;
        proof {
            assert(q0 as int == m as int / d as int && r0 as int == m as int % d as int
                && 0 <= (r0 as int) && (r0 as int) < d as int && 0 <= q0 && q0 <= m);
            assert(m as int == d as int * (q0 as int) + r0 as int) by {
                vstd::arithmetic::div_mod::lemma_fundamental_div_mod(m as int, d as int);
            }
        }
        if r0 == 0 {
            proof {
                assert(a as int == (-(q0 as int)) * (d as int) + 0) by (nonlinear_arith)
                    requires
                        a as int == -(m as int),
                        m as int == d as int * (q0 as int) + r0 as int,
                        r0 as int == 0,
                ;
                lemma_fundamental_div_mod_converse(a as int, d as int, -(q0 as int), 0);
            }
            -q0
        } else {
            proof {
                assert(a as int == (-(q0 as int) - 1) * (d as int) + (d as int - r0 as int))
                    by (nonlinear_arith)
                    requires
                        a as int == -(m as int),
                        m as int == d as int * (q0 as int) + r0 as int,
                ;
                lemma_fundamental_div_mod_converse(
                    a as int,
                    d as int,
                    -(q0 as int) - 1,
                    d as int - r0 as int,
                );
            }
            -q0 - 1
        }
    }
}

/// A fixed-point scalar: the real value `v / FX_SCALE`.
#[derive(Clone, Copy, Debug, PartialEq, Eq, Structural)]
pub struct Fx {
    pub v: i64,
}

impl View for Fx {
    type V = int;

    open spec fn view(&self) -> int {
        self.v as int
    }
}

impl Fx {
    /// The scalar zero.
    pub fn zero() -> (r: Fx)
        ensures
            r@ == 0,
    {
        Fx { v: 0 }
    }

    /// The scalar one.
    pub fn one() -> (r: Fx)
        ensures
            r@ == FX_SCALE as int,
    {
        Fx { v: FX_SCALE }
    }

    /// The scalar holding a whole number.
    pub fn from_int(n: i64) -> (r: Fx)
        ensures
            r@ == clip(n * FX_SCALE),
    {
        proof {
            lemma_mul_bound(n as int, FX_SCALE as int, 0x8000_0000_0000_0000, FX_SCALE as int);
        }
        Fx { v: clip_exec(n as i128 * FX_SCALE as i128) }
    }

    /// The scalar holding `m / 1000`, for writing fractional constants.
    pub fn from_milli(m: i64) -> (r: Fx)
        ensures
            r@ == clip(tdiv(m * FX_SCALE, 1000)),
    {
        proof {
            lemma_mul_bound(m as int, FX_SCALE as int, 0x8000_0000_0000_0000, FX_SCALE as int);
        }
        Fx { v: clip_exec(tdiv_exec(m as i128 * FX_SCALE as i128, 1000)) }
    }

    pub fn add(self, rhs: Fx) -> (r: Fx)
        ensures
            r@ == fadd(self@, rhs@),
    {
        Fx { v: clip_exec(self.v as i128 + rhs.v as i128) }
    }

    pub fn sub(self, rhs: Fx) -> (r: Fx)
        ensures
            r@ == fsub(self@, rhs@),
    {
        Fx { v: clip_exec(self.v as i128 - rhs.v as i128) }
    }

    pub fn neg(self) -> (r: Fx)
        ensures
            r@ == fneg(self@),
    {
        Fx { v: clip_exec(-(self.v as i128)) }
    }

    pub fn mul(self, rhs: Fx) -> (r: Fx)
        ensures
            r@ == fmul(self@, rhs@),
    {
        proof {
            lemma_mul_bound(
                self.v as int,
                rhs.v as int,
                0x8000_0000_0000_0000,
                0x8000_0000_0000_0000,
            );
        }
        let p: i128 = self.v as i128 * rhs.v as i128;
        Fx { v: clip_exec(tdiv_exec(p, FX_SCALE as i128)) }
    }

    pub fn div(self, rhs: Fx) -> (r: Fx)
        requires
            rhs@ != 0,
        ensures
            r@ == fdiv(self@, rhs@),
    {
        proof {
            lemma_mul_bound(self.v as int, FX_SCALE as int, 0x8000_0000_0000_0000, FX_SCALE as int);
        }
        let p: i128 = self.v as i128 * FX_SCALE as i128;
        Fx { v: clip_exec(tdiv_exec(p, rhs.v as i128)) }
    }

    pub fn min(self, rhs: Fx) -> (r: Fx)
        ensures
            r@ == fmin(self@, rhs@),
    {
        if self.v <= rhs.v {
            self
        } else {
            rhs
        }
    }

    pub fn max(self, rhs: Fx) -> (r: Fx)
        ensures
            r@ == fmax(self@, rhs@),
    {
        if self.v >= rhs.v {
            self
        } else {
            rhs
        }
    }

    /// Square root, rounded down to the representation step.
    pub fn sqrt(self) -> (r: Fx)
        requires
            0 <= self@ <= FX_LIMIT as int,
        ensures
            r@ == fsqrt(self@),
    {
        proof {
            lemma_mul_bound(self.v as int, FX_SCALE as int, FX_LIMIT as int, FX_SCALE as int);
        }
        let x: u64 = (self.v as u64) * (FX_SCALE as u64);
        let r: u64 = isqrt_u64(x);
        proof {
            lemma_sqrt_floor(x as nat);
        }
        Fx { v: r as i64 }
    }
}

fn isqrt_u64(x: u64) -> (r: u64)
    ensures
        r as nat == sqrt_floor(x as nat),
        r <= 0x1_0000_0000u64,
{
    let mut lo: u64 = 0;
    let mut hi: u64 = 0x1_0000_0000;
    while lo + 1 < hi
        invariant
            (lo as nat) * (lo as nat) <= x as nat,
            (x as nat) < (hi as nat) * (hi as nat),
            lo < hi <= 0x1_0000_0000u64,
        decreases hi - lo,
    {
        let mid: u64 = lo + (hi - lo) / 2;
        proof {
            lemma_mul_bound(mid as int, mid as int, 0x1_0000_0000, 0x1_0000_0000);
        }
        let sq: u128 = (mid as u128) * (mid as u128);
        if sq <= x as u128 {
            lo = mid;
        } else {
            hi = mid;
        }
    }
    proof {
        lemma_sqrt_floor_unique(x as nat, lo as nat);
    }
    lo
}

} // verus!
