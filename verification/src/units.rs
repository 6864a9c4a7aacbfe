//! Fixed-point units and rounding division.
//!
//! A temperature is an `i64` in milli-degrees Celsius.  A duty cycle or a
//! smoothing factor is a `u64` fraction in parts per million: `0` is 0.0
//! and `DUTY_SCALE` is 1.0.

use vstd::prelude::*;

verus! {

/// Fixed-point denominator for duty cycles and smoothing factors: 1.0 in
/// parts per million.
pub const DUTY_SCALE: u64 = 1_000_000;

/// Largest magnitude a temperature may take, in milli-degrees Celsius.
pub const TEMP_LIMIT: i64 = 1_000_000_000;

/// Longest PWM period, in microseconds (one full second).
pub const PERIOD_MAX: u64 = 1_000_000;

/// A temperature value the controller is prepared to work with.
pub open spec fn temp_ok(t: int) -> bool {
    -(TEMP_LIMIT as int) <= t <= TEMP_LIMIT as int
}

/// A duty cycle or smoothing factor: a fraction of `DUTY_SCALE`.
pub open spec fn fraction_ok(f: int) -> bool {
    0 <= f <= DUTY_SCALE as int
}

/// An optional temperature whose value, if present, is in range.
pub open spec fn opt_temp_ok(t: Option<i64>) -> bool {
    match t {
        Option::Some(v) => temp_ok(v as int),
        Option::None => true,
    }
}

/// Division rounded to the nearest integer, ties away from zero.
/// Meaningful for `d > 0`.
pub open spec fn div_round(n: int, d: int) -> int {
    if n >= 0 {
        (n + d / 2) / d
    } else {
        -(((-n) + d / 2) / d)
    }
}

/// Bound under which the rounding divisions below cannot overflow.
pub const DIV_BOUND: u64 = 1_000_000_000_000_000_000;

/// Most samples one statistics period will accumulate.
pub const COUNT_LIMIT: u64 = 1_000_000_000;

/// Rounding division on non-negative fixed-point values.
pub fn div_round_u64(n: u64, d: u64) -> (q: u64)
    requires
        1 <= d <= DIV_BOUND,
        n <= DIV_BOUND,
    ensures
        q == div_round(n as int, d as int),
        q <= n,
{
    let q: u64 = (n + d / 2) / d;
    proof {
        let ni = n as int;
        let di = d as int;
        assert(q <= n) by {
            vstd::arithmetic::div_mod::lemma_div_decreases(di, 2);
            vstd::arithmetic::div_mod::lemma_div_pos_is_pos(di, 2);
            assert(ni <= di * ni) by (nonlinear_arith)
                requires 1 <= di, 0 <= ni;
            vstd::arithmetic::div_mod::lemma_div_is_ordered(ni + di / 2, di * ni + di / 2, di);
            vstd::arithmetic::div_mod::lemma_div_multiples_vanish_fancy(ni, di / 2, di);
        }
    }
    q
}

/// `div_round` is monotone in the numerator.
pub proof fn lemma_div_round_monotone(n1: int, n2: int, d: int)
    requires
        n1 <= n2,
        1 <= d,
    ensures
        div_round(n1, d) <= div_round(n2, d),
{
    if 0 <= n1 {
        vstd::arithmetic::div_mod::lemma_div_is_ordered(n1 + d / 2, n2 + d / 2, d);
    } else if n2 < 0 {
        vstd::arithmetic::div_mod::lemma_div_is_ordered((-n2) + d / 2, (-n1) + d / 2, d);
    } else {
        vstd::arithmetic::div_mod::lemma_div_pos_is_pos((-n1) + d / 2, d);
        vstd::arithmetic::div_mod::lemma_div_pos_is_pos(n2 + d / 2, d);
    }
}

/// Dividing an exact multiple of ten back by ten, with rounding, is the
/// identity.
pub proof fn lemma_div_round_tenth(m: int)
    ensures
        div_round(10 * m, 10) == m,
{
    if m >= 0 {
        vstd::arithmetic::div_mod::lemma_div_multiples_vanish_fancy(m, 5, 10);
    } else {
        vstd::arithmetic::div_mod::lemma_div_multiples_vanish_fancy(-m, 5, 10);
    }
}

/// Scaling a value `b` by a fraction `a / d` with `a <= d` cannot exceed `b`.
pub proof fn lemma_div_round_scale_le(a: int, b: int, d: int)
    requires
        0 <= a <= d,
        0 <= b,
        1 <= d,
    ensures
        0 <= div_round(a * b, d) <= b,
{
    assert(0 <= a * b <= d * b) by (nonlinear_arith)
        requires 0 <= a <= d, 0 <= b;
    vstd::arithmetic::div_mod::lemma_div_pos_is_pos(a * b + d / 2, d);
    vstd::arithmetic::div_mod::lemma_div_pos_is_pos(d, 2);
    vstd::arithmetic::div_mod::lemma_div_decreases(d, 2);
    vstd::arithmetic::div_mod::lemma_div_is_ordered(a * b + d / 2, d * b + d / 2, d);
    vstd::arithmetic::div_mod::lemma_div_multiples_vanish_fancy(b, d / 2, d);
}

/// Rounding division on signed fixed-point values (temperatures).
pub fn div_round_i64(n: i64, d: i64) -> (q: i64)
    requires
        1 <= d <= DIV_BOUND,
        -(DIV_BOUND as int) <= n <= DIV_BOUND as int,
    ensures
        q == div_round(n as int, d as int),
        -(DIV_BOUND as int) <= q <= DIV_BOUND as int,
{
    if n >= 0 {
        let m: u64 = n as u64;
        let q: u64 = div_round_u64(m, d as u64);
        q as i64
    } else {
        let m: u64 = (-n) as u64;
        let q: u64 = div_round_u64(m, d as u64);
        -(q as i64)
    }
}

} // verus!
