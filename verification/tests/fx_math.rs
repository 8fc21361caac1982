//! Exact expected values for the fixed-point scalar operations.

use softraster::fx::{fx_add, fx_div, fx_mul, fx_sub, isqrt, FX_ONE, FX_SAT};

#[test]
fn mul_exact_values() {
    // 1.5 * 2.0 == 3.0
    assert_eq!(fx_mul(98304, 131072), 196608);
    // (-1.5) * 2.0 == -3.0
    assert_eq!(fx_mul(-98304, 131072), -196608);
    // one times one
    assert_eq!(fx_mul(FX_ONE, FX_ONE), FX_ONE);
    // tiny magnitudes truncate toward zero from both sides
    assert_eq!(fx_mul(1, 1), 0);
    assert_eq!(fx_mul(-1, 1), 0);
}

#[test]
fn mul_saturates() {
    assert_eq!(fx_mul(FX_SAT, FX_SAT), FX_SAT);
    assert_eq!(fx_mul(-FX_SAT, FX_SAT), -FX_SAT);
}

#[test]
fn div_exact_values() {
    // 1 / 3 truncated
    assert_eq!(fx_div(65536, 196608), 21845);
    assert_eq!(fx_div(-65536, 196608), -21845);
    // 3 / 1.5 == 2
    assert_eq!(fx_div(196608, 98304), 131072);
}

#[test]
fn div_by_zero_saturates_by_sign() {
    assert_eq!(fx_div(5, 0), FX_SAT);
    assert_eq!(fx_div(-5, 0), -FX_SAT);
    assert_eq!(fx_div(0, 0), 0);
}

#[test]
fn add_sub_saturate() {
    assert_eq!(fx_add(FX_SAT, FX_SAT), FX_SAT);
    assert_eq!(fx_sub(-FX_SAT, FX_SAT), -FX_SAT);
    assert_eq!(fx_add(65536, -65536), 0);
}

#[test]
fn isqrt_exact_values() {
    assert_eq!(isqrt(0), 0);
    assert_eq!(isqrt(10), 3);
    assert_eq!(isqrt(4294967296), 65536);
    assert_eq!(isqrt(4294967295), 65535);
}

#[test]
fn trunc_toward_zero() {
    assert_eq!(softraster::buffer::fx_trunc(98304), 1);
    assert_eq!(softraster::buffer::fx_trunc(-98304), -1);
    assert_eq!(softraster::buffer::fx_trunc(65535), 0);
}
