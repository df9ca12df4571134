//! Exact integer arithmetic used by the calibration model.
//!
//! The calibration transforms are affine maps with rational coefficients.
//! They are evaluated here over integers scaled to microvolts, with division
//! truncated toward zero, so every conversion is reproducible bit for bit.

use vstd::prelude::*;
use vstd::arithmetic::div_mod::lemma_fundamental_div_mod;
use vstd::arithmetic::div_mod::lemma_mod_division_less_than_divisor;

verus! {

/// Division truncated toward zero, for a positive divisor. This is the
/// rounding a hardware register solve uses when it drops the fraction of a
/// signed quantity.
pub open spec fn div_trunc(n: int, d: int) -> int
    recommends
        d > 0,
{
    if n >= 0 {
        n / d
    } else {
        -((-n) / d)
    }
}

/// Magnitude of an unbounded integer.
pub open spec fn abs_int(x: int) -> int {
    if x >= 0 {
        x
    } else {
        -x
    }
}

/// Division of 128-bit values truncated toward zero.
pub fn div_trunc_i128(n: i128, d: i128) -> (r: i128)
    requires
        d > 0,
        n > i128::MIN,
    ensures
        r == div_trunc(n as int, d as int),
{
    if n >= 0 {
        let q: u128 = (n as u128) / (d as u128);
        proof {
            assert(q == n as int / d as int);
        }
        q as i128
    } else {
        let m: u128 = (-n) as u128;
        let q: u128 = m / (d as u128);
        proof {
            assert(q <= m);
        }
        -(q as i128)
    }
}

/// Clamps an exact code to the signed 16-bit measurement range, the way a
/// conversion to a narrower register saturates.
pub open spec fn clamp_i16(x: int) -> int {
    if x < -0x8000 {
        -0x8000
    } else if x > 0x7FFF {
        0x7FFF
    } else {
        x
    }
}

/// Saturates a 128-bit value into a signed 16-bit measurement.
pub fn clamp_to_i16(x: i128) -> (r: i16)
    ensures
        r == clamp_i16(x as int),
{
    if x < -0x8000 {
        -0x8000
    } else if x > 0x7FFF {
        0x7FFF
    } else {
        x as i16
    }
}

/// Clamps an exact register solution to an unsigned 8-bit register, the way
/// the saturating conversion of the solver does.
pub open spec fn clamp_u8(x: int) -> u8 {
    if x < 0 {
        0
    } else if x > 255 {
        255
    } else {
        x as u8
    }
}

/// A quotient truncated toward zero sits within one divisor of the dividend:
/// `div_trunc(n, d) * d` misses `n` by less than `d` either way.
pub proof fn lemma_div_trunc_close(n: int, d: int)
    requires
        d > 0,
    ensures
        abs_int(div_trunc(n, d) * d - n) < d,
        n >= 0 ==> div_trunc(n, d) * d <= n,
        n <= 0 ==> div_trunc(n, d) * d >= n,
{
    if n >= 0 {
        lemma_fundamental_div_mod(n, d);
        lemma_mod_division_less_than_divisor(n, d);
        assert(d * (n / d) == (n / d) * d) by (nonlinear_arith);
    } else {
        lemma_fundamental_div_mod(-n, d);
        lemma_mod_division_less_than_divisor(-n, d);
        let q = (-n) / d;
        assert(-n == d * q + (-n) % d);
        assert((-q) * d == -(d * q)) by (nonlinear_arith);
        assert(div_trunc(n, d) == -q);
    }
}

/// A quotient truncated toward zero is no larger in magnitude than the
/// dividend.
pub proof fn lemma_div_trunc_bound(n: int, d: int)
    requires
        d > 0,
    ensures
        abs_int(div_trunc(n, d)) <= abs_int(n),
{
    if n >= 0 {
        vstd::arithmetic::div_mod::lemma_div_nonincreasing(n, d);
        vstd::arithmetic::div_mod::lemma_div_pos_is_pos(n, d);
    } else {
        vstd::arithmetic::div_mod::lemma_div_nonincreasing(-n, d);
        vstd::arithmetic::div_mod::lemma_div_pos_is_pos(-n, d);
    }
}

/// Scaling a value by `kn / kd` with truncation and scaling back by
/// `kd / kn` with truncation returns within `(kn + kd) / kn` of the start:
/// one step of the coarser grid plus one unit of the finer one. An integer
/// offset `h` applied on the way in and taken back on the way out cancels.
pub proof fn lemma_scale_round_trip(v: int, kn: int, kd: int, h: int)
    requires
        kn > 0,
        kd > 0,
    ensures
        ({
            let t = div_trunc(v * kn + h, kd);
            let r = div_trunc(t * kd - h, kn);
            abs_int(r - v) * kn < kn + kd
        }),
{
    let m = v * kn + h;
    let t = div_trunc(m, kd);
    let u = t * kd - h;
    let r = div_trunc(u, kn);
    lemma_div_trunc_close(m, kd);
    lemma_div_trunc_close(u, kn);
    assert(abs_int(u - v * kn) < kd);
    assert(abs_int(r * kn - u) < kn);
    assert(abs_int(r * kn - v * kn) < kn + kd);
    assert((r - v) * kn == r * kn - v * kn) by (nonlinear_arith);
    assert(abs_int(r - v) * kn == abs_int((r - v) * kn)) by (nonlinear_arith)
        requires
            kn > 0,
    ;
}

} // verus!
