//! Saturating 16.16 fixed-point scalar arithmetic.
//!
//! A fixed-point value stores `65536 * x` for the real number `x`.  Every
//! operation truncates toward zero (the rounding of Rust's `/`) and
//! saturates its result to `[-FX_SAT, FX_SAT]`, so all operations are
//! total and every stored value stays far away from the `i64` limits.

use vstd::prelude::*;

verus! {

/// The fixed-point representation of the real number 1.
pub const FX_ONE: i64 = 65536;

/// Saturation bound (2^46) for every fixed-point result: about 10^9 in
/// real units, far beyond any meaningful scene coordinate.
pub const FX_SAT: i64 = 70368744177664;

/// Truncating division (the rounding of Rust's `/` operator) over
/// mathematical integers; unspecified for `b == 0`.
pub open spec fn sdiv(a: int, b: int) -> int
    recommends
        b != 0,
{
    if a >= 0 && b > 0 {
        a / b
    } else if a < 0 && b < 0 {
        (-a) / (-b)
    } else if a < 0 {
        -((-a) / b)
    } else {
        -(a / (-b))
    }
}

/// Clamp an unbounded integer into the saturation range.
pub open spec fn sat_s(v: int) -> int {
    if v > FX_SAT {
        FX_SAT as int
    } else if v < -(FX_SAT as int) {
        -(FX_SAT as int)
    } else {
        v
    }
}

/// Fixed-point product: `a * b / 65536`, truncated, saturated.
pub open spec fn fx_mul_s(a: int, b: int) -> int {
    sat_s(sdiv(a * b, FX_ONE as int))
}

/// Fixed-point quotient `a / b`, truncated, saturated.  A zero divisor
/// saturates toward the sign of the dividend (the stand-in for a real
/// division blowing up), and `0 / 0` is `0`.
pub open spec fn fx_div_s(a: int, b: int) -> int {
    if b == 0 {
        if a > 0 {
            FX_SAT as int
        } else if a < 0 {
            -(FX_SAT as int)
        } else {
            0
        }
    } else {
        sat_s(sdiv(a * (FX_ONE as int), b))
    }
}

/// Saturated sum.
pub open spec fn fx_add_s(a: int, b: int) -> int {
    sat_s(a + b)
}

/// Saturated difference.
pub open spec fn fx_sub_s(a: int, b: int) -> int {
    sat_s(a - b)
}

/// `fx_mul_s` at `i64` precision (every saturated value fits in `i64`).
pub open spec fn fxm(a: i64, b: i64) -> i64 {
    fx_mul_s(a as int, b as int) as i64
}

/// `fx_div_s` at `i64` precision.
pub open spec fn fxd(a: i64, b: i64) -> i64 {
    fx_div_s(a as int, b as int) as i64
}

/// `fx_add_s` at `i64` precision.
pub open spec fn fxa(a: i64, b: i64) -> i64 {
    fx_add_s(a as int, b as int) as i64
}

/// `fx_sub_s` at `i64` precision.
pub open spec fn fxsb(a: i64, b: i64) -> i64 {
    fx_sub_s(a as int, b as int) as i64
}

/// A truncating quotient never exceeds the dividend in magnitude.
pub proof fn lemma_sdiv_bounds(a: int, b: int)
    requires
        b != 0,
    ensures
        -(if a >= 0 { a } else { -a }) <= sdiv(a, b) <= (if a >= 0 { a } else { -a }),
{
    if a > 0 {
        if b > 0 {
            vstd::arithmetic::div_mod::lemma_div_nonincreasing(a, b);
            vstd::arithmetic::div_mod::lemma_div_pos_is_pos(a, b);
        } else {
            vstd::arithmetic::div_mod::lemma_div_nonincreasing(a, -b);
            vstd::arithmetic::div_mod::lemma_div_pos_is_pos(a, -b);
        }
    } else if a < 0 {
        if b > 0 {
            vstd::arithmetic::div_mod::lemma_div_nonincreasing(-a, b);
            vstd::arithmetic::div_mod::lemma_div_pos_is_pos(-a, b);
        } else {
            vstd::arithmetic::div_mod::lemma_div_nonincreasing(-a, -b);
            vstd::arithmetic::div_mod::lemma_div_pos_is_pos(-a, -b);
        }
    } else {
        if b > 0 {
            vstd::arithmetic::div_mod::lemma_div_of0(b);
        } else {
            vstd::arithmetic::div_mod::lemma_div_of0(-b);
        }
    }
}

/// Bound a truncating quotient: a dividend within `k` multiples of the
/// divisor gives a quotient within `k`.
pub proof fn lemma_sdiv_within(a: int, b: int, k: int)
    requires
        b > 0,
        k >= 0,
        -(k * b) <= a <= k * b,
    ensures
        -k <= sdiv(a, b) <= k,
{
    if a >= 0 {
        let q = a / b;
        let r = a % b;
        vstd::arithmetic::div_mod::lemma_fundamental_div_mod(a, b);
        vstd::arithmetic::div_mod::lemma_div_pos_is_pos(a, b);
        vstd::arithmetic::div_mod::lemma_mod_division_less_than_divisor(a, b);
        assert(q <= k) by (nonlinear_arith)
            requires
                b > 0,
                k >= 0,
                q >= 0,
                b * q + r == a,
                r >= 0,
                a <= k * b,
        {}
    } else {
        let q = (-a) / b;
        let r = (-a) % b;
        vstd::arithmetic::div_mod::lemma_fundamental_div_mod(-a, b);
        vstd::arithmetic::div_mod::lemma_div_pos_is_pos(-a, b);
        vstd::arithmetic::div_mod::lemma_mod_division_less_than_divisor(-a, b);
        assert(q <= k) by (nonlinear_arith)
            requires
                b > 0,
                k >= 0,
                q >= 0,
                b * q + r == -a,
                r >= 0,
                -a <= k * b,
        {}
    }
}

/// Truncating division on `i128`, total over the inputs the pipeline
/// produces (no `i128::MIN` dividend).
pub(crate) fn sdiv128(n: i128, d: i128) -> (r: i128)
    requires
        d != 0,
        n != i128::MIN,
    ensures
        r as int == sdiv(n as int, d as int),
{
    proof {
        lemma_sdiv_bounds(n as int, d as int);
    }
    match n.checked_div(d) {
        Some(q) => q,
        None => {
            proof {
                assert(false);
            }
            0
        },
    }
}

/// Clamp an `i128` into the fixed-point saturation range.
fn sat64(v: i128) -> (r: i64)
    ensures
        r as int == sat_s(v as int),
{
    if v > FX_SAT as i128 {
        FX_SAT
    } else if v < -(FX_SAT as i128) {
        -FX_SAT
    } else {
        v as i64
    }
}

/// Fixed-point multiplication.
pub fn fx_mul(a: i64, b: i64) -> (r: i64)
    ensures
        r as int == fx_mul_s(a as int, b as int),
        r == fxm(a, b),
{
    proof {
        assert((a as int) * (b as int) <= 0x4000_0000_0000_0000_0000_0000_0000_0000int
            && (a as int) * (b as int) >= -0x4000_0000_0000_0000_0000_0000_0000_0000int)
            by (nonlinear_arith)
            requires
                -0x8000_0000_0000_0000 <= a as int <= 0x7fff_ffff_ffff_ffff,
                -0x8000_0000_0000_0000 <= b as int <= 0x7fff_ffff_ffff_ffff,
        {}
    }
    let p: i128 = (a as i128) * (b as i128);
    let q: i128 = sdiv128(p, FX_ONE as i128);
    sat64(q)
}

/// Fixed-point division, total (see `fx_div_s` for the zero-divisor
/// convention).
pub fn fx_div(a: i64, b: i64) -> (r: i64)
    ensures
        r as int == fx_div_s(a as int, b as int),
        r == fxd(a, b),
{
    if b == 0 {
        if a > 0 {
            FX_SAT
        } else if a < 0 {
            -FX_SAT
        } else {
            0
        }
    } else {
        let n: i128 = (a as i128) * 65536i128;
        let q: i128 = sdiv128(n, b as i128);
        sat64(q)
    }
}

/// Saturated fixed-point addition.
pub fn fx_add(a: i64, b: i64) -> (r: i64)
    ensures
        r as int == fx_add_s(a as int, b as int),
        r == fxa(a, b),
{
    sat64((a as i128) + (b as i128))
}

/// Saturated fixed-point subtraction.
pub fn fx_sub(a: i64, b: i64) -> (r: i64)
    ensures
        r as int == fx_sub_s(a as int, b as int),
        r == fxsb(a, b),
{
    sat64((a as i128) - (b as i128))
}

/// `r` is the integer square root of `n`.
pub open spec fn is_isqrt(n: int, r: int) -> bool {
    0 <= r && r * r <= n && n < (r + 1) * (r + 1)
}

/// The integer square root, as a mathematical function.
pub open spec fn isqrt_s(n: int) -> int
    recommends
        n >= 0,
{
    choose|r: int| is_isqrt(n, r)
}

/// Integer square roots are unique.
pub proof fn lemma_isqrt_unique(n: int, r1: int, r2: int)
    requires
        is_isqrt(n, r1),
        is_isqrt(n, r2),
    ensures
        r1 == r2,
{
    assert(r1 == r2) by (nonlinear_arith)
        requires
            0 <= r1,
            0 <= r2,
            r1 * r1 <= n,
            n < (r1 + 1) * (r1 + 1),
            r2 * r2 <= n,
            n < (r2 + 1) * (r2 + 1),
    {}
}

/// Binary-search integer square root.
pub fn isqrt(n: u128) -> (r: u128)
    ensures
        is_isqrt(n as int, r as int),
        r as int == isqrt_s(n as int),
{
    let mut lo: u128 = 0;
    let mut hi: u128 = 18446744073709551616;
    proof {
        assert((hi as int) * (hi as int) > n as int) by (nonlinear_arith)
            requires
                hi as int == 0x1_0000_0000_0000_0000,
                (n as int) < 0x1_0000_0000_0000_0000_0000_0000_0000_0000int,
        {}
    }
    while lo + 1 < hi
        invariant
            0 <= lo < hi <= 18446744073709551616,
            (lo as int) * (lo as int) <= n as int,
            (hi as int) * (hi as int) > n as int,
        decreases hi - lo,
    {
        let mid: u128 = lo + (hi - lo) / 2;
        proof {
            assert((mid as int) * (mid as int) < 0x1_0000_0000_0000_0000_0000_0000_0000_0000int)
                by (nonlinear_arith)
                requires
                    0 <= mid as int && (mid as int) < 0x1_0000_0000_0000_0000,
            {}
        }
        if mid * mid <= n {
            lo = mid;
        } else {
            hi = mid;
        }
    }
    proof {
        assert(is_isqrt(n as int, lo as int));
        assert(exists|r: int| is_isqrt(n as int, r)) by {
            assert(is_isqrt(n as int, lo as int));
        }
        lemma_isqrt_unique(n as int, choose|r: int| is_isqrt(n as int, r), lo as int);
    }
    lo
}

} // verus!
