//! Duty-cycle mapper: clamped linear interpolation from temperature to
//! fan duty cycle.

use vstd::prelude::*;
use crate::config::ControlConfig;
use crate::units::{
    temp_ok, fraction_ok, div_round, div_round_u64, lemma_div_round_monotone,
    lemma_div_round_scale_le,
};

verus! {

/// The duty cycle commanded for a filtered temperature: `min_duty` at or
/// below `min_temp`, `max_duty` at or above `max_temp`, and a linear ramp
/// (rounded to the nearest part per million) in between.  A degenerate
/// span with `min_duty == max_duty` commands that single value everywhere.
pub open spec fn duty_for_temp(cfg: ControlConfig, temp: int) -> int {
    if temp <= cfg.min_temp {
        cfg.min_duty as int
    } else if temp >= cfg.max_temp {
        cfg.max_duty as int
    } else if cfg.min_duty < cfg.max_duty {
        cfg.min_duty + div_round(
            (temp - cfg.min_temp) * (cfg.max_duty - cfg.min_duty),
            cfg.max_temp - cfg.min_temp,
        )
    } else {
        cfg.max_duty as int
    }
}

/// At or below `min_temp` the mapper commands exactly `min_duty`; at or
/// above `max_temp`, exactly `max_duty`.  The two claims meet when
/// `min_temp == max_temp` and the temperature sits on both: there the
/// low clamp wins, as the first matching rule.
pub proof fn lemma_duty_clamps(cfg: ControlConfig, temp: int)
    requires
        cfg.wf(),
    ensures
        temp <= cfg.min_temp ==> duty_for_temp(cfg, temp) == cfg.min_duty,
        temp >= cfg.max_temp && temp > cfg.min_temp
            ==> duty_for_temp(cfg, temp) == cfg.max_duty,
{
}

/// Every commanded duty cycle lies between the configured bounds.
pub proof fn lemma_duty_in_bounds(cfg: ControlConfig, temp: int)
    requires
        cfg.wf(),
    ensures
        cfg.min_duty <= duty_for_temp(cfg, temp) <= cfg.max_duty,
{
    if cfg.min_temp < temp < cfg.max_temp && cfg.min_duty < cfg.max_duty {
        lemma_div_round_scale_le(
            temp - cfg.min_temp,
            cfg.max_duty - cfg.min_duty,
            cfg.max_temp - cfg.min_temp,
        );
    }
}

/// The mapper is monotonically non-decreasing in temperature.
pub proof fn lemma_duty_monotone(cfg: ControlConfig, t1: int, t2: int)
    requires
        cfg.wf(),
        t1 <= t2,
    ensures
        duty_for_temp(cfg, t1) <= duty_for_temp(cfg, t2),
{
    lemma_duty_in_bounds(cfg, t1);
    lemma_duty_in_bounds(cfg, t2);
    if cfg.min_temp < t1 && t2 < cfg.max_temp && cfg.min_duty < cfg.max_duty {
        let dd = cfg.max_duty - cfg.min_duty;
        assert((t1 - cfg.min_temp) * dd <= (t2 - cfg.min_temp) * dd) by (nonlinear_arith)
            requires t1 <= t2, 0 <= dd;
        lemma_div_round_monotone(
            (t1 - cfg.min_temp) * dd,
            (t2 - cfg.min_temp) * dd,
            cfg.max_temp - cfg.min_temp,
        );
    }
}

/// Computes the duty cycle for a filtered temperature.
pub fn map_duty(cfg: &ControlConfig, temp: i64) -> (duty: u64)
    requires
        cfg.wf(),
        temp_ok(temp as int),
    ensures
        duty == duty_for_temp(*cfg, temp as int),
        cfg.min_duty <= duty <= cfg.max_duty,
        fraction_ok(duty as int),
{
    proof {
        lemma_duty_in_bounds(*cfg, temp as int);
    }
    if temp <= cfg.min_temp {
        cfg.min_duty
    } else if temp >= cfg.max_temp {
        cfg.max_duty
    } else if cfg.min_duty < cfg.max_duty {
        let rise: u64 = (temp - cfg.min_temp) as u64;
        let span: u64 = (cfg.max_temp - cfg.min_temp) as u64;
        let dd: u64 = cfg.max_duty - cfg.min_duty;
        proof {
            assert(rise * dd <= 2_000_000_000 * 1_000_000) by (nonlinear_arith)
                requires 0 <= rise <= 2_000_000_000, 0 <= dd <= 1_000_000;
        }
        let scaled: u64 = div_round_u64(rise * dd, span);
        proof {
            lemma_div_round_scale_le(
                rise as int,
                (cfg.max_duty - cfg.min_duty) as int,
                span as int,
            );
        }
        cfg.min_duty + scaled
    } else {
        cfg.max_duty
    }
}

} // verus!
