//! Fixed-point scalars.
//!
//! A scalar is an `i64` counting millionths: the value `x` stands for the
//! real number `x / 1_000_000`. Products and quotients round toward zero and
//! saturate symmetrically at `±i64::MAX`, so negation is always exact.

use vstd::prelude::*;

verus! {

/// Number of fixed-point units per one.
pub const FX_ONE: i64 = 1_000_000;

/// Largest magnitude a scalar may take; the range is symmetric so that
/// negation never overflows.
pub const FX_MAX: i64 = 9_223_372_036_854_775_807;

pub proof fn lemma_mul_bounds(a: int, b: int, m1: int, m2: int)
    by (nonlinear_arith)
    requires
        -m1 <= a <= m1,
        -m2 <= b <= m2,
    ensures
        -(m1 * m2) <= a * b <= m1 * m2,
{
}

pub proof fn lemma_mul_lower(a: int, b: int, l1: int, l2: int)
    by (nonlinear_arith)
    requires
        0 <= l1 <= a,
        0 <= l2 <= b,
    ensures
        l1 * l2 <= a * b,
{
}

pub proof fn lemma_sq_strict(a: int, b: int)
    by (nonlinear_arith)
    requires
        0 <= a < b,
    ensures
        a * a < b * b,
{
}

/// Clamp a mathematical integer into the symmetric scalar range.
pub open spec fn sat64(x: int) -> int {
    if x > FX_MAX as int {
        FX_MAX as int
    } else if x < -(FX_MAX as int) {
        -(FX_MAX as int)
    } else {
        x
    }
}

/// Division rounding toward zero, as the machine divides.
pub open spec fn tdiv(a: int, b: int) -> int {
    if a >= 0 {
        a / b
    } else {
        -((-a) / b)
    }
}

/// The product of two scalars.
pub open spec fn fx_mul_spec(a: int, b: int) -> int {
    sat64(tdiv(a * b, FX_ONE as int))
}

/// The quotient of two scalars; division by zero yields zero.
pub open spec fn fx_div_spec(a: int, b: int) -> int {
    if b == 0 {
        0
    } else {
        sat64(tdiv(a * (FX_ONE as int), b))
    }
}

/// The sum of two scalars.
pub open spec fn fx_add_spec(a: int, b: int) -> int {
    sat64(a + b)
}

/// The difference of two scalars.
pub open spec fn fx_sub_spec(a: int, b: int) -> int {
    sat64(a - b)
}

/// The negation of a scalar; exact everywhere in the symmetric range.
pub open spec fn fx_neg_spec(a: int) -> int {
    sat64(-a)
}

/// Integer square root: the largest `r` with `r * r <= n`.
pub open spec fn isqrt_spec(n: nat) -> nat
    decreases n,
{
    if n == 0 {
        0
    } else {
        let p = isqrt_spec((n - 1) as nat);
        if (p + 1) * (p + 1) <= n {
            p + 1
        } else {
            p
        }
    }
}

/// The square root of a scalar: `isqrt(a * FX_ONE)` is the fixed-point root
/// of `a`. Non-positive inputs yield zero.
pub open spec fn fx_sqrt_spec(a: int) -> int {
    if a <= 0 {
        0
    } else {
        isqrt_spec((a * (FX_ONE as int)) as nat) as int
    }
}

pub proof fn lemma_isqrt_bounds(n: nat)
    ensures
        isqrt_spec(n) * isqrt_spec(n) <= n,
        n < (isqrt_spec(n) + 1) * (isqrt_spec(n) + 1),
    decreases n,
{
    broadcast use vstd::arithmetic::mul::group_mul_properties;

    if n == 0 {
        assert(isqrt_spec(n) == 0);
    } else {
        lemma_isqrt_bounds((n - 1) as nat);
        let p = isqrt_spec((n - 1) as nat);
        if (p + 1) * (p + 1) <= n {
            assert(isqrt_spec(n) == p + 1);
            lemma_sq_strict((p + 1) as int, (p + 2) as int);
            assert(n < (p + 2) * (p + 2));
        } else {
            assert(isqrt_spec(n) == p);
        }
    }
}

pub proof fn lemma_isqrt_unique(n: nat, r: nat)
    requires
        r * r <= n,
        n < (r + 1) * (r + 1),
    ensures
        r == isqrt_spec(n),
{
    lemma_isqrt_bounds(n);
    let s = isqrt_spec(n);
    if r < s {
        lemma_sq_strict(r as int, s as int);
        lemma_sq_strict(r as int + 1, s as int + 1);
        lemma_mul_lower(s as int, s as int, r as int + 1, r as int + 1);
    }
    if s < r {
        lemma_mul_lower(r as int, r as int, s as int + 1, s as int + 1);
    }
}

/// Clamp a wide intermediate into the scalar range.
fn sat_i128(x: i128) -> (r: i64)
    ensures
        r as int == sat64(x as int),
{
    if x > FX_MAX as i128 {
        FX_MAX
    } else if x < -(FX_MAX as i128) {
        -FX_MAX
    } else {
        x as i64
    }
}

pub fn fx_add(a: i64, b: i64) -> (r: i64)
    ensures
        r as int == fx_add_spec(a as int, b as int),
{
    sat_i128(a as i128 + b as i128)
}

pub fn fx_sub(a: i64, b: i64) -> (r: i64)
    ensures
        r as int == fx_sub_spec(a as int, b as int),
{
    sat_i128(a as i128 - b as i128)
}

pub fn fx_neg(a: i64) -> (r: i64)
    ensures
        r as int == fx_neg_spec(a as int),
{
    sat_i128(-(a as i128))
}

pub fn fx_mul(a: i64, b: i64) -> (r: i64)
    ensures
        r as int == fx_mul_spec(a as int, b as int),
{
    let wa: i128 = a as i128;
    let wb: i128 = b as i128;
    proof {
        lemma_mul_bounds(wa as int, wb as int, 0x8000_0000_0000_0000, 0x8000_0000_0000_0000);
    }
    let p: i128 = wa * wb;
    let q: i128 = p / (FX_ONE as i128);
    sat_i128(q)
}

pub proof fn lemma_div_mag(p: int, b: int)
    by (nonlinear_arith)
    requires
        p >= 0,
        b != 0,
    ensures
        -p <= p / b <= p,
{
}

pub fn fx_div(a: i64, b: i64) -> (r: i64)
    ensures
        r as int == fx_div_spec(a as int, b as int),
{
    if b == 0 {
        return 0;
    }
    proof {
        lemma_mul_bounds(a as int, FX_ONE as int, 0x8000_0000_0000_0000, 1_000_000);
        let p = (a as int) * (FX_ONE as int);
        if p >= 0 {
            lemma_div_mag(p, b as int);
        } else {
            lemma_div_mag(-p, b as int);
        }
    }
    let p: i128 = (a as i128) * (FX_ONE as i128);
    let q: i128 = p / (b as i128);
    sat_i128(q)
}

/// Magnitude of a scalar.
pub open spec fn fx_abs_spec(a: int) -> int {
    if a >= 0 {
        a
    } else {
        sat64(-a)
    }
}

pub fn fx_abs(a: i64) -> (r: i64)
    ensures
        r as int == fx_abs_spec(a as int),
{
    if a >= 0 {
        a
    } else {
        fx_neg(a)
    }
}

/// Clamp a scalar between two bounds, the lower bound winning when they cross.
pub open spec fn fx_clamp_spec(v: int, lo: int, hi: int) -> int {
    if v < lo {
        lo
    } else if v > hi {
        hi
    } else {
        v
    }
}

pub fn fx_clamp(v: i64, lo: i64, hi: i64) -> (r: i64)
    ensures
        r as int == fx_clamp_spec(v as int, lo as int, hi as int),
{
    if v < lo {
        lo
    } else if v > hi {
        hi
    } else {
        v
    }
}

pub open spec fn fx_min_spec(a: int, b: int) -> int {
    if a <= b {
        a
    } else {
        b
    }
}

pub open spec fn fx_max_spec(a: int, b: int) -> int {
    if a >= b {
        a
    } else {
        b
    }
}

pub fn fx_min(a: i64, b: i64) -> (r: i64)
    ensures
        r as int == fx_min_spec(a as int, b as int),
{
    if a <= b {
        a
    } else {
        b
    }
}

pub fn fx_max(a: i64, b: i64) -> (r: i64)
    ensures
        r as int == fx_max_spec(a as int, b as int),
{
    if a >= b {
        a
    } else {
        b
    }
}

fn isqrt_u128(n: u128) -> (r: u128)
    ensures
        r as nat == isqrt_spec(n as nat),
{
    let mut lo: u128 = 0;
    let mut hi: u128 = 0x1_0000_0000_0000_0000;
    proof {
        lemma_mul_lower(hi as int, hi as int, 0x1_0000_0000_0000_0000, 0x1_0000_0000_0000_0000);
    }
    while lo + 1 < hi
        invariant
            lo < hi,
            hi <= 0x1_0000_0000_0000_0000,
            (lo as int) * (lo as int) <= n as int,
            (hi as int) * (hi as int) > n as int,
        decreases hi - lo,
    {
        let mid: u128 = lo + (hi - lo) / 2;
        proof {
            lemma_mul_bounds(mid as int, mid as int, 0xffff_ffff_ffff_ffff, 0xffff_ffff_ffff_ffff);
        }
        if mid * mid <= n {
            lo = mid;
        } else {
            hi = mid;
        }
    }
    proof {
        lemma_isqrt_unique(n as nat, lo as nat);
    }
    lo
}

pub fn fx_sqrt(a: i64) -> (r: i64)
    ensures
        r as int == fx_sqrt_spec(a as int),
{
    if a <= 0 {
        return 0;
    }
    proof {
        lemma_mul_bounds(a as int, FX_ONE as int, 0x8000_0000_0000_0000, 1_000_000);
    }
    let n: u128 = (a as u128) * (FX_ONE as u128);
    let r = isqrt_u128(n);
    proof {
        lemma_isqrt_bounds(n as nat);
        let s = isqrt_spec(n as nat);
        if s >= 0x1_0000_0000_0000 {
            lemma_mul_lower(s as int, s as int, 0x1_0000_0000_0000, 0x1_0000_0000_0000);
        }
    }
    r as i64
}


/// One quarter turn (pi/2) in fixed-point radians.
pub const FX_HALF_PI: i64 = 1_570_796;

/// One eighth turn (pi/4), the half-width of the trigonometric reduction.
pub const FX_QUARTER_PI: i64 = 785_398;

/// Quarter-turn count added before reduction so the dividend is never
/// negative; a multiple of four, so quadrant indices are unchanged.
pub const FX_TRIG_SHIFT: i64 = 6_000_000_000_000;

/// The angle shifted into non-negative territory for quadrant reduction.
pub open spec fn trig_arg(theta: int) -> int {
    theta + FX_QUARTER_PI + (FX_TRIG_SHIFT as int) * (FX_HALF_PI as int)
}

/// Which quadrant the angle falls in, 0 through 3.
pub open spec fn trig_quad(theta: int) -> int {
    (trig_arg(theta) / (FX_HALF_PI as int)) % 4
}

/// Offset of the angle from its quadrant's centre, within (-pi/4, pi/4].
pub open spec fn trig_residual(theta: int) -> int {
    trig_arg(theta) % (FX_HALF_PI as int) - FX_QUARTER_PI
}

/// Odd polynomial x - x^3/6 + x^5/120 in fixed point.
pub open spec fn sin_core_spec(x: int) -> int {
    let x2 = fx_mul_spec(x, x);
    let x3 = fx_mul_spec(x2, x);
    let x5 = fx_mul_spec(x3, x2);
    fx_add_spec(fx_sub_spec(x, tdiv(x3, 6)), tdiv(x5, 120))
}

/// Even polynomial 1 - x^2/2 + x^4/24 - x^6/720 in fixed point.
pub open spec fn cos_core_spec(x: int) -> int {
    let x2 = fx_mul_spec(x, x);
    let x4 = fx_mul_spec(x2, x2);
    let x6 = fx_mul_spec(x4, x2);
    fx_sub_spec(fx_add_spec(fx_sub_spec(FX_ONE as int, tdiv(x2, 2)), tdiv(x4, 24)), tdiv(x6, 720))
}

/// Sine of a fixed-point angle in radians.
pub open spec fn fx_sin_spec(theta: int) -> int {
    let x = trig_residual(theta);
    let q = trig_quad(theta);
    if q == 0 {
        sin_core_spec(x)
    } else if q == 1 {
        cos_core_spec(x)
    } else if q == 2 {
        sat64(-sin_core_spec(x))
    } else {
        sat64(-cos_core_spec(x))
    }
}

/// Cosine of a fixed-point angle in radians.
pub open spec fn fx_cos_spec(theta: int) -> int {
    let x = trig_residual(theta);
    let q = trig_quad(theta);
    if q == 0 {
        cos_core_spec(x)
    } else if q == 1 {
        sat64(-sin_core_spec(x))
    } else if q == 2 {
        sat64(-cos_core_spec(x))
    } else {
        sin_core_spec(x)
    }
}

fn div_const(a: i64, d: i64) -> (r: i64)
    requires
        d > 0,
    ensures
        r as int == tdiv(a as int, d as int),
{
    proof {
        if a >= 0 {
            lemma_div_mag(a as int, d as int);
        } else {
            lemma_div_mag(-(a as int), d as int);
        }
    }
    a / d
}

fn sin_core(x: i64) -> (r: i64)
    ensures
        r as int == sin_core_spec(x as int),
{
    let x2 = fx_mul(x, x);
    let x3 = fx_mul(x2, x);
    let x5 = fx_mul(x3, x2);
    fx_add(fx_sub(x, div_const(x3, 6)), div_const(x5, 120))
}

fn cos_core(x: i64) -> (r: i64)
    ensures
        r as int == cos_core_spec(x as int),
{
    let x2 = fx_mul(x, x);
    let x4 = fx_mul(x2, x2);
    let x6 = fx_mul(x4, x2);
    fx_sub(fx_add(fx_sub(FX_ONE, div_const(x2, 2)), div_const(x4, 24)), div_const(x6, 720))
}

fn trig_reduce(theta: i64) -> (qx: (i64, i64))
    ensures
        qx.0 as int == trig_quad(theta as int),
        qx.1 as int == trig_residual(theta as int),
{
    proof {
        lemma_mul_bounds(FX_TRIG_SHIFT as int, FX_HALF_PI as int, 6_000_000_000_000, 1_570_796);
        lemma_mul_lower(FX_TRIG_SHIFT as int, FX_HALF_PI as int, 6_000_000_000_000, 1_570_796);
    }
    let shift: i128 = (FX_TRIG_SHIFT as i128) * (FX_HALF_PI as i128);
    let base: i128 = theta as i128 + FX_QUARTER_PI as i128 + shift;
    let h: i128 = FX_HALF_PI as i128;
    let q: i128 = (base / h) % 4;
    let r: i128 = base % h;
    (q as i64, (r - FX_QUARTER_PI as i128) as i64)
}

pub fn fx_sin(theta: i64) -> (r: i64)
    ensures
        r as int == fx_sin_spec(theta as int),
{
    let (q, x) = trig_reduce(theta);
    if q == 0 {
        sin_core(x)
    } else if q == 1 {
        cos_core(x)
    } else if q == 2 {
        fx_neg(sin_core(x))
    } else {
        fx_neg(cos_core(x))
    }
}

pub fn fx_cos(theta: i64) -> (r: i64)
    ensures
        r as int == fx_cos_spec(theta as int),
{
    let (q, x) = trig_reduce(theta);
    if q == 0 {
        cos_core(x)
    } else if q == 1 {
        fx_neg(sin_core(x))
    } else if q == 2 {
        fx_neg(cos_core(x))
    } else {
        sin_core(x)
    }
}


pub proof fn lemma_tdiv_odd(a: int, b: int)
    requires
        b != 0,
    ensures
        tdiv(-a, b) == -tdiv(a, b),
{
    if a == 0 {
        vstd::arithmetic::div_mod::lemma_div_of0(b);
    }
}

/// Negating one factor negates a product; negating both restores it.
pub proof fn lemma_fx_mul_odd(a: int, b: int)
    ensures
        fx_mul_spec(-a, b) == -fx_mul_spec(a, b),
        fx_mul_spec(-a, -b) == fx_mul_spec(a, b),
{
    vstd::arithmetic::mul::lemma_mul_unary_negation(a, b);
    vstd::arithmetic::mul::lemma_mul_unary_negation(-a, b);
    assert((-a) * b == -(a * b));
    assert((-a) * (-b) == a * b);
    lemma_tdiv_odd(a * b, FX_ONE as int);
}

/// Negating the dividend negates a quotient.
pub proof fn lemma_fx_div_odd(a: int, b: int)
    ensures
        fx_div_spec(-a, b) == -fx_div_spec(a, b),
{
    if b != 0 {
        vstd::arithmetic::mul::lemma_mul_unary_negation(a, FX_ONE as int);
        assert((-a) * (FX_ONE as int) == -(a * (FX_ONE as int)));
        lemma_tdiv_odd(a * (FX_ONE as int), b);
    }
}

} // verus!

