//! Fixed-point numbers with ten fractional bits, and exact fractions used in
//! place of floating-point values at the edges of the library.
use vstd::prelude::*;

verus! {

/// A fixed-point number: the value `v` stands for `v / 1024`.
#[allow(non_camel_case_types)]
pub type css_fixed = i32;

/// The scale of a `css_fixed`: two to the number of fractional bits.
pub const FIXED_SCALE: i32 = 1024;

/// An exact fraction `num / den`, the library's stand-in for a floating-point
/// number.
#[derive(Clone, Copy, Debug, PartialEq, Eq)]
pub struct CssFraction {
    pub num: i64,
    pub den: u32,
}

impl CssFraction {
    /// The denominator is positive.
    pub open spec fn wf(self) -> bool {
        self.den > 0
    }
}

/// The fraction in fixed point, truncated toward zero (unbounded).
pub open spec fn spec_trunc_fixed(f: CssFraction) -> int {
    trunc_div(f.num * FIXED_SCALE, f.den as int)
}

/// `a / b` truncated toward zero, for a positive `b`.
pub open spec fn trunc_div(a: int, b: int) -> int
    recommends
        b > 0,
{
    if a >= 0 {
        a / b
    } else {
        -((-a) / b)
    }
}

/// `a / b` rounded down, for a positive `b`.
pub open spec fn floor_div(a: int, b: int) -> int
    recommends
        b > 0,
{
    a / b
}

/// Whether an integer is in the range of `css_fixed`.
pub open spec fn fits_fixed(v: int) -> bool {
    i32::MIN <= v <= i32::MAX
}

/// The exact value of a fixed-point number, as a fraction over 1024.
pub fn css_fixed_to_float(f: css_fixed) -> (r: CssFraction)
    ensures
        r.wf(),
        r.num == f as i64,
        r.den == FIXED_SCALE as u32,
{
    CssFraction { num: f as i64, den: FIXED_SCALE as u32 }
}

/// The fixed-point number that a fraction truncates to (toward zero), or
/// `None` when it lies outside the range of `css_fixed`.
pub fn float_to_css_fixed(f: CssFraction) -> (r: Option<css_fixed>)
    requires
        f.wf(),
    ensures
        fits_fixed(spec_trunc_fixed(f)) <==> r is Some,
        r matches Some(v) ==> v as int == spec_trunc_fixed(f),
{
    let scaled: i128 = (f.num as i128) * (FIXED_SCALE as i128);
    let den: i128 = f.den as i128;
    let q: i128 = if scaled >= 0 {
        scaled / den
    } else {
        let neg: i128 = -scaled;
        -(neg / den)
    };
    if q < i32::MIN as i128 || q > i32::MAX as i128 {
        None
    } else {
        Some(q as i32)
    }
}

proof fn lemma_neg_floor_div(n: int, d: int)
    requires
        n > 0,
        d > 0,
    ensures
        (-n) / d == -((n + d - 1) / d),
{
    let q = (n + d - 1) / d;
    let r = (n + d - 1) % d;
    assert(n + d - 1 == q * d + r && 0 <= r < d) by {
        vstd::arithmetic::div_mod::lemma_fundamental_div_mod(n + d - 1, d);
    }
    // -n == -q*d + (d - 1 - r), with 0 <= d - 1 - r < d
    assert(-n == (-q) * d + (d - 1 - r)) by (nonlinear_arith)
        requires
            n + d - 1 == q * d + r,
    ;
    vstd::arithmetic::div_mod::lemma_fundamental_div_mod_converse(-n, d, -q, d - 1 - r);
}

/// `v` clamped to the range of `css_fixed`.
pub open spec fn spec_clamp_fixed(v: int) -> css_fixed {
    if v < i32::MIN {
        i32::MIN
    } else if v > i32::MAX {
        i32::MAX
    } else {
        v as i32
    }
}

/// `a * b / d` rounded down, clamped to the range of `css_fixed`.
pub open spec fn spec_fixed_scale(a: css_fixed, b: css_fixed, d: int) -> css_fixed {
    spec_clamp_fixed(floor_div(a * b, d))
}

/// The product of two fixed-point numbers, rounded down and clamped to the
/// range of `css_fixed`.
pub open spec fn spec_fixed_mul(a: css_fixed, b: css_fixed) -> css_fixed {
    spec_fixed_scale(a, b, 1024)
}

/// `a` percent of `b`, rounded down and clamped to the range of `css_fixed`.
pub open spec fn spec_fixed_percent(a: css_fixed, b: css_fixed) -> css_fixed {
    spec_fixed_scale(a, b, 102400)
}

fn fixed_scale(a: css_fixed, b: css_fixed, d: i64) -> (r: css_fixed)
    requires
        d > 0,
    ensures
        r == spec_fixed_scale(a, b, d as int),
{
    let a2: i128 = a as i128;
    let b2: i128 = b as i128;
    assert(-0x4000_0000_0000_0000 <= a2 * b2 <= 0x4000_0000_0000_0000) by (nonlinear_arith)
        requires
            -0x8000_0000 <= a2 <= 0x7fff_ffff,
            -0x8000_0000 <= b2 <= 0x7fff_ffff,
    ;
    let prod: i128 = a2 * b2;
    let d2: i128 = d as i128;
    let q: i128 = if prod >= 0 {
        prod / d2
    } else {
        let neg: i128 = -prod;
        let up: i128 = (neg + (d2 - 1)) / d2;
        proof {
            lemma_neg_floor_div(neg as int, d2 as int);
        }
        -up
    };
    if q < i32::MIN as i128 {
        i32::MIN
    } else if q > i32::MAX as i128 {
        i32::MAX
    } else {
        q as i32
    }
}

/// The product of two fixed-point numbers, rounded down and clamped to the
/// range of `css_fixed`.
pub fn fixed_mul(a: css_fixed, b: css_fixed) -> (r: css_fixed)
    ensures
        r == spec_fixed_mul(a, b),
{
    fixed_scale(a, b, 1024)
}

/// `a` percent of `b`, rounded down and clamped to the range of `css_fixed`.
pub fn fixed_percent(a: css_fixed, b: css_fixed) -> (r: css_fixed)
    ensures
        r == spec_fixed_percent(a, b),
{
    fixed_scale(a, b, 102400)
}

/// Decoding a fixed-point number to its exact fraction and encoding it back
/// gives the same number.
pub proof fn lemma_fixed_round_trip(x: css_fixed)
    ensures
        spec_trunc_fixed(CssFraction { num: x as i64, den: FIXED_SCALE as u32 }) == x as int,
        fits_fixed(spec_trunc_fixed(CssFraction { num: x as i64, den: FIXED_SCALE as u32 })),
{
    assert((x as int * 1024) / 1024 == x as int) by (nonlinear_arith);
    assert((-(x as int) * 1024) / 1024 == -(x as int)) by (nonlinear_arith);
}

/// Encoding a fraction truncates it toward zero by less than one step of
/// 1/1024: the encoded value `v` never exceeds the fraction in magnitude,
/// has its sign (or is zero), and `|num / den - v / 1024| < 1 / 1024`.
pub proof fn lemma_fixed_precision(f: CssFraction)
    requires
        f.wf(),
    ensures
        f.num >= 0 ==> 0 <= spec_trunc_fixed(f) && spec_trunc_fixed(f) * f.den <= f.num * 1024 < (
        spec_trunc_fixed(f) + 1) * f.den,
        f.num < 0 ==> spec_trunc_fixed(f) <= 0 && (spec_trunc_fixed(f) - 1) * f.den < f.num * 1024
            <= spec_trunc_fixed(f) * f.den,
{
    let d = f.den as int;
    let a = f.num * 1024;
    let m = if a >= 0 { a } else { -a };
    vstd::arithmetic::div_mod::lemma_fundamental_div_mod(m, d);
    let q = m / d;
    let r = m % d;
    assert(q * d <= m < (q + 1) * d && q >= 0) by (nonlinear_arith)
        requires
            m == d * q + r,
            0 <= r < d,
            m >= 0,
            d > 0,
    ;
    if a < 0 {
        assert((-q - 1) * d < a <= (-q) * d) by (nonlinear_arith)
            requires
                q * d <= m < (q + 1) * d,
                a == -m,
        ;
    }
}

} // verus!
