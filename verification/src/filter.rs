//! Thermal filter: asymmetric exponential smoothing of the temperature.
//!
//! A reading that equals the previous filtered value passes through
//! unchanged; otherwise the new reading and the previous filtered value
//! are blended with the configured weights, one pair for rising and one
//! for falling temperature.

use vstd::prelude::*;
use crate::config::ControlConfig;
use crate::units::{
    temp_ok, opt_temp_ok, div_round, div_round_i64, DUTY_SCALE, TEMP_LIMIT,
};

verus! {

/// The weighted average of a new reading and the previous filtered value,
/// rounded to the nearest milli-degree.
pub open spec fn blend_spec(raw: int, prev: int, factor_new: int, factor_old: int) -> int {
    div_round(raw * factor_new + prev * factor_old, DUTY_SCALE as int)
}

/// A weighted average of two in-range temperatures stays in range.
pub proof fn lemma_blend_in_range(raw: int, prev: int, factor_new: int, factor_old: int)
    requires
        temp_ok(raw),
        temp_ok(prev),
        0 <= factor_new,
        0 <= factor_old,
        factor_new + factor_old == DUTY_SCALE,
    ensures
        temp_ok(blend_spec(raw, prev, factor_new, factor_old)),
{
    let s = DUTY_SCALE as int;
    let l = TEMP_LIMIT as int;
    let n = raw * factor_new + prev * factor_old;
    assert(-(l * s) <= n <= l * s) by (nonlinear_arith)
        requires
            -l <= raw <= l,
            -l <= prev <= l,
            0 <= factor_new,
            0 <= factor_old,
            factor_new + factor_old == s,
            0 <= l,
            n == raw * factor_new + prev * factor_old;
    vstd::arithmetic::div_mod::lemma_div_pos_is_pos(s, 2);
    vstd::arithmetic::div_mod::lemma_div_decreases(s, 2);
    vstd::arithmetic::div_mod::lemma_div_multiples_vanish_fancy(l, s / 2, s);
    if n >= 0 {
        vstd::arithmetic::div_mod::lemma_div_is_ordered(n + s / 2, l * s + s / 2, s);
        vstd::arithmetic::div_mod::lemma_div_pos_is_pos(n + s / 2, s);
    } else {
        vstd::arithmetic::div_mod::lemma_div_is_ordered((-n) + s / 2, l * s + s / 2, s);
        vstd::arithmetic::div_mod::lemma_div_pos_is_pos((-n) + s / 2, s);
    }
}

/// One filter step: what the new filtered value is, given the previous
/// one and this cycle's reading.  The result is absent only when there is
/// neither a previous value nor a reading.
pub open spec fn filter_step_spec(cfg: ControlConfig, prev: Option<i64>, raw: Option<i64>)
    -> Option<i64> {
    match (prev, raw) {
        (Option::None, Option::None) => Option::None,
        (Option::None, Option::Some(r)) => Option::Some(r),
        (Option::Some(p), Option::None) => Option::Some(p),
        (Option::Some(p), Option::Some(r)) => Option::Some(
            if r == p {
                r
            } else if r < p {
                blend_spec(r as int, p as int, cfg.factor_cold_new as int,
                    cfg.factor_cold_old as int) as i64
            } else {
                blend_spec(r as int, p as int, cfg.factor_hot_new as int,
                    cfg.factor_hot_old as int) as i64
            },
        ),
    }
}

/// Blends a reading with the previous filtered value.
fn blend(raw: i64, prev: i64, factor_new: u64, factor_old: u64) -> (t: i64)
    requires
        temp_ok(raw as int),
        temp_ok(prev as int),
        factor_new + factor_old == DUTY_SCALE,
    ensures
        t == blend_spec(raw as int, prev as int, factor_new as int, factor_old as int),
        temp_ok(t as int),
{
    proof {
        assert(
            -1_000_000_000_000_000 <= raw * factor_new <= 1_000_000_000_000_000
                && -1_000_000_000_000_000 <= prev * factor_old <= 1_000_000_000_000_000
        ) by (nonlinear_arith)
            requires
                -TEMP_LIMIT <= raw <= TEMP_LIMIT,
                -TEMP_LIMIT <= prev <= TEMP_LIMIT,
                0 <= factor_new,
                0 <= factor_old,
                factor_new + factor_old == DUTY_SCALE,
                DUTY_SCALE == 1_000_000u64,
                TEMP_LIMIT == 1_000_000_000i64;
        lemma_blend_in_range(raw as int, prev as int, factor_new as int, factor_old as int);
    }
    let n: i64 = raw * (factor_new as i64) + prev * (factor_old as i64);
    div_round_i64(n, DUTY_SCALE as i64)
}

/// Applies one filter step to this cycle's reading.
pub fn filter_step(cfg: &ControlConfig, prev: Option<i64>, raw: Option<i64>) -> (t: Option<i64>)
    requires
        cfg.wf(),
        opt_temp_ok(prev),
        opt_temp_ok(raw),
    ensures
        t == filter_step_spec(*cfg, prev, raw),
        opt_temp_ok(t),
{
    match (prev, raw) {
        (None, None) => None,
        (None, Some(r)) => Some(r),
        (Some(p), None) => Some(p),
        (Some(p), Some(r)) => Some(
            if r == p {
                r
            } else if r < p {
                blend(r, p, cfg.factor_cold_new, cfg.factor_cold_old)
            } else {
                blend(r, p, cfg.factor_hot_new, cfg.factor_hot_old)
            },
        ),
    }
}

} // verus!
