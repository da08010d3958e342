//! Saturating fixed-point arithmetic with six decimal places.
//!
//! Every economic quantity is an `i64` counting micro-units: the value `x`
//! stands for the rational number `x / SCALE`. All operations saturate at
//! `±CAP` instead of overflowing, and every operation's result is pinned
//! down exactly by a spec function, so the whole simulation is a
//! deterministic function of its inputs with no undefined numeric case.

use vstd::prelude::*;
use vstd::arithmetic::power2::pow2;

verus! {

/// One unit: fixed-point values carry six decimal places.
pub const SCALE: i64 = 1_000_000;

/// Saturation bound: one billion units, in micro-units.
pub const CAP: i64 = 1_000_000_000_000_000;

/// A value the arithmetic accepts: magnitude at most `CAP`.
pub open spec fn in_range(x: int) -> bool {
    -CAP <= x <= CAP
}

pub open spec fn abs_spec(x: int) -> int {
    if x < 0 {
        -x
    } else {
        x
    }
}

pub open spec fn min_spec(a: int, b: int) -> int {
    if a < b {
        a
    } else {
        b
    }
}

pub open spec fn max_spec(a: int, b: int) -> int {
    if a > b {
        a
    } else {
        b
    }
}

/// Saturate a mathematical integer into `[-CAP, CAP]`.
pub open spec fn clamp_spec(x: int) -> int {
    if x > CAP {
        CAP as int
    } else if x < -CAP {
        -CAP as int
    } else {
        x
    }
}

/// `a * b / SCALE`, truncated toward zero, saturated at `±CAP`.
pub open spec fn mul_spec(a: int, b: int) -> int {
    let m = (abs_spec(a) * abs_spec(b)) / (SCALE as int);
    let c = if m > CAP { CAP as int } else { m };
    if (a < 0) != (b < 0) {
        -c
    } else {
        c
    }
}

/// `a / b` in fixed point for `a >= 0`, `b > 0`: `a * SCALE / b`, saturated.
pub open spec fn div_spec(a: int, b: int) -> int {
    let q = (a * SCALE) / b;
    if q > CAP {
        CAP as int
    } else {
        q
    }
}

/// Signed quotient: `div_spec` on the magnitude of `a`, with `a`'s sign.
pub open spec fn sdiv_spec(a: int, b: int) -> int {
    if a >= 0 {
        div_spec(a, b)
    } else {
        -div_spec(-a, b)
    }
}

/// `a + b`, saturated at `±CAP`.
pub open spec fn add_spec(a: int, b: int) -> int {
    clamp_spec(a + b)
}

/// `a - b`, saturated at `±CAP`.
pub open spec fn sub_spec(a: int, b: int) -> int {
    clamp_spec(a - b)
}

/// Exponential smoothing with factor 0.8: `(8a + 2b) / 10` on
/// non-negative values.
pub open spec fn smooth_spec(a: int, b: int) -> int {
    (8 * a + 2 * b) / 10
}

/// `2^(x / SCALE)` in fixed point. The fractional part of the exponent is
/// interpolated linearly between neighbouring powers of two; the result
/// saturates at `CAP` and underflows to `0`.
pub open spec fn pow2_fx_spec(x: int) -> int {
    if x >= 30 * SCALE {
        CAP as int
    } else if x >= 0 {
        let k = x / (SCALE as int);
        let f = x % (SCALE as int);
        let v = pow2(k as nat) * (SCALE + f);
        if v > CAP {
            CAP as int
        } else {
            v
        }
    } else {
        let m = -x;
        let km = (m + SCALE - 1) / (SCALE as int);
        let f = km * SCALE - m;
        if km >= 40 {
            0
        } else {
            (SCALE + f) / (pow2(km as nat) as int)
        }
    }
}

/// Base-two logarithm of `w / SCALE` in fixed point, by binary
/// normalisation with linear interpolation of the mantissa; `fuel` bounds
/// the number of normalisation steps.
pub open spec fn log2n_spec(w: int, fuel: nat) -> int
    decreases fuel,
{
    if fuel == 0 {
        0
    } else if w >= 2 * SCALE {
        SCALE + log2n_spec(w / 2, (fuel - 1) as nat)
    } else if 1 <= w < SCALE {
        log2n_spec(2 * w, (fuel - 1) as nat) - SCALE
    } else if SCALE <= w {
        w - SCALE
    } else {
        0
    }
}

/// Normalisation steps allowed in `fx_log2`; ample for any in-range value.
pub const LOG_FUEL: u64 = 80;

/// `x / SCALE` truncated toward zero: a fixed-point value as whole units.
pub open spec fn unscale_spec(x: int) -> int {
    if x >= 0 {
        x / (SCALE as int)
    } else {
        -((-x) / (SCALE as int))
    }
}

/// `x / 10` truncated toward zero.
pub open spec fn sdiv10_spec(x: int) -> int {
    if x >= 0 {
        x / 10
    } else {
        -((-x) / 10)
    }
}

/// `w^1.1` for `w >= 0`, as `w * 2^(log2(w) / 10)` in fixed point.
pub open spec fn pow11_spec(w: int) -> int {
    if w <= 0 {
        0
    } else {
        mul_spec(w, pow2_fx_spec(sdiv10_spec(log2n_spec(w, LOG_FUEL as nat))))
    }
}

/// Saturate into `[-CAP, CAP]`.
pub fn fx_clamp(x: i64) -> (r: i64)
    ensures
        r == clamp_spec(x as int),
{
    if x > CAP {
        CAP
    } else if x < -CAP {
        -CAP
    } else {
        x
    }
}

/// Fixed-point product, exact per `mul_spec`.
pub fn fx_mul(a: i64, b: i64) -> (r: i64)
    requires
        in_range(a as int),
        in_range(b as int),
    ensures
        r == mul_spec(a as int, b as int),
        in_range(r as int),
        a >= 0 && b >= 0 ==> r >= 0,
{
    let am: u64 = if a < 0 { (-a) as u64 } else { a as u64 };
    let bm: u64 = if b < 0 { (-b) as u64 } else { b as u64 };
    assert((am as int) * (bm as int) <= (CAP as int) * (CAP as int)) by (nonlinear_arith)
        requires
            0 <= am <= CAP,
            0 <= bm <= CAP,
    ;
    let p: u128 = (am as u128) * (bm as u128);
    let q: u128 = p / (SCALE as u128);
    let c: u128 = if q > CAP as u128 { CAP as u128 } else { q };
    let m: i64 = c as i64;
    if (a < 0) != (b < 0) {
        -m
    } else {
        m
    }
}

/// Fixed-point quotient of non-negative by positive, exact per `div_spec`.
pub fn fx_div(a: i64, b: i64) -> (r: i64)
    requires
        0 <= a <= CAP,
        0 < b,
    ensures
        r == div_spec(a as int, b as int),
        0 <= r <= CAP,
{
    let p: u128 = (a as u128) * (SCALE as u128);
    let q: u128 = p / (b as u128);
    let c: u128 = if q > CAP as u128 { CAP as u128 } else { q };
    c as i64
}

/// Signed fixed-point quotient, exact per `sdiv_spec`.
pub fn fx_sdiv(a: i64, b: i64) -> (r: i64)
    requires
        in_range(a as int),
        0 < b <= CAP,
    ensures
        r == sdiv_spec(a as int, b as int),
        in_range(r as int),
{
    if a >= 0 {
        fx_div(a, b)
    } else {
        -fx_div(-a, b)
    }
}

/// Saturating sum.
pub fn fx_add(a: i64, b: i64) -> (r: i64)
    requires
        in_range(a as int),
        in_range(b as int),
    ensures
        r == add_spec(a as int, b as int),
        in_range(r as int),
{
    fx_clamp(a + b)
}

/// Saturating difference.
pub fn fx_sub(a: i64, b: i64) -> (r: i64)
    requires
        in_range(a as int),
        in_range(b as int),
    ensures
        r == sub_spec(a as int, b as int),
        in_range(r as int),
{
    fx_clamp(a - b)
}

/// Smaller of two values.
pub fn fx_min(a: i64, b: i64) -> (r: i64)
    ensures
        r == min_spec(a as int, b as int),
{
    if a < b {
        a
    } else {
        b
    }
}

/// The value floored at zero.
pub fn fx_max0(a: i64) -> (r: i64)
    ensures
        r == max_spec(a as int, 0),
{
    if a > 0 {
        a
    } else {
        0
    }
}

/// Whole units of a fixed-point value, exact per `unscale_spec`; the
/// argument may run to twice the saturation bound, so that a sum of two
/// in-range values can be truncated as one.
pub fn fx_unscale(x: i64) -> (r: i64)
    requires
        -2 * CAP <= x <= 2 * CAP,
    ensures
        r == unscale_spec(x as int),
        in_range(r as int),
{
    if x >= 0 {
        ((x as u64) / (SCALE as u64)) as i64
    } else {
        -((((-x) as u64) / (SCALE as u64)) as i64)
    }
}

/// Exponential smoothing with factor 0.8, exact per `smooth_spec`.
pub fn fx_smooth(a: i64, b: i64) -> (r: i64)
    requires
        0 <= a <= CAP,
        0 <= b <= CAP,
    ensures
        r == smooth_spec(a as int, b as int),
        0 <= r <= CAP,
{
    let n: u64 = 8 * (a as u64) + 2 * (b as u64);
    (n / 10) as i64
}

/// `2^n` as a machine integer, exact per vstd's `pow2`.
pub fn fx_pow2u(n: u64) -> (r: u64)
    requires
        n <= 50,
    ensures
        r == pow2(n as nat),
{
    let mut i: u64 = 0;
    let mut r: u64 = 1;
    assert(r == pow2(0)) by {
        vstd::arithmetic::power2::lemma2_to64();
    }
    while i < n
        invariant
            i <= n <= 50,
            r == pow2(i as nat),
        decreases n - i,
    {
        proof {
            lemma_pow2_le50(i as nat);
            assert(pow2((i + 1) as nat) == 2 * pow2(i as nat)) by {
                vstd::arithmetic::power2::lemma_pow2_unfold((i + 1) as nat);
            }
        }
        r = 2 * r;
        i = i + 1;
    }
    r
}

/// `pow2` stays below `2^63` for exponents up to 50.
proof fn lemma_pow2_le50(n: nat)
    requires
        n <= 50,
    ensures
        pow2(n) < 0x8000_0000_0000_0000,
    decreases 50 - n,
{
    if n == 50 {
        vstd::arithmetic::power2::lemma2_to64_rest();
    } else {
        lemma_pow2_le50(n + 1);
        assert(pow2((n + 1) as nat) == 2 * pow2(n)) by {
            vstd::arithmetic::power2::lemma_pow2_unfold((n + 1) as nat);
        }
    }
}

/// Fixed-point power of two, exact per `pow2_fx_spec`; never negative.
pub fn fx_pow2(x: i64) -> (r: i64)
    requires
        in_range(x as int),
    ensures
        r == pow2_fx_spec(x as int),
        0 <= r <= CAP,
{
    if x >= 30 * SCALE {
        CAP
    } else if x >= 0 {
        let k: u64 = (x as u64) / (SCALE as u64);
        let f: u64 = (x as u64) % (SCALE as u64);
        let p: u64 = fx_pow2u(k);
        proof {
            lemma_pow2_le50(k as nat);
            assert((p as int) * ((SCALE + f) as int) <= 0x8000_0000_0000_0000 * 2_000_000)
                by (nonlinear_arith)
                requires
                    0 <= p <= 0x8000_0000_0000_0000,
                    0 <= (SCALE + f) as int <= 2_000_000,
            ;
        }
        let v: u128 = (p as u128) * ((SCALE as u64 + f) as u128);
        if v > CAP as u128 {
            CAP
        } else {
            v as i64
        }
    } else {
        let m: u64 = (-x) as u64;
        let km: u64 = (m + (SCALE as u64 - 1)) / (SCALE as u64);
        if km >= 40 {
            0
        } else {
            let f: u64 = km * (SCALE as u64) - m;
            let p: u64 = fx_pow2u(km);
            proof {
                vstd::arithmetic::power2::lemma_pow2_pos(km as nat);
            }
            ((SCALE as u64 + f) / p) as i64
        }
    }
}

/// Fixed-point base-two logarithm, exact per `log2n_spec` at `LOG_FUEL`.
pub fn fx_log2(w: i64) -> (r: i64)
    requires
        1 <= w <= CAP,
    ensures
        r == log2n_spec(w as int, LOG_FUEL as nat),
        abs_spec(r as int) <= (LOG_FUEL + 1) * SCALE,
{
    let r = fx_log2_fueled(w, LOG_FUEL);
    r
}

fn fx_log2_fueled(w: i64, fuel: u64) -> (r: i64)
    requires
        1 <= w <= CAP,
        fuel <= LOG_FUEL,
    ensures
        r == log2n_spec(w as int, fuel as nat),
        abs_spec(r as int) <= (fuel + 1) * SCALE,
    decreases fuel,
{
    if fuel == 0 {
        0
    } else if w >= 2 * SCALE {
        let inner = fx_log2_fueled(((w as u64) / 2) as i64, fuel - 1);
        SCALE + inner
    } else if w < SCALE {
        let inner = fx_log2_fueled(2 * w, fuel - 1);
        inner - SCALE
    } else {
        w - SCALE
    }
}

/// `w^1.1` for non-negative `w`, exact per `pow11_spec`; never negative.
pub fn fx_pow11(w: i64) -> (r: i64)
    requires
        0 <= w <= CAP,
    ensures
        r == pow11_spec(w as int),
        0 <= r <= CAP,
{
    if w == 0 {
        0
    } else {
        let l = fx_log2(w);
        let e: i64 = if l >= 0 {
            ((l as u64) / 10) as i64
        } else {
            -((((-l) as u64) / 10) as i64)
        };
        let p = fx_pow2(e);
        let r = fx_mul(w, p);
        assert(r >= 0);
        r
    }
}

} // verus!
