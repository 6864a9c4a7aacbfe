//! Software PWM timing: how one period is split between the asserted and
//! the deasserted level for a given duty cycle.

use vstd::prelude::*;
use crate::units::{
    fraction_ok, div_round, div_round_u64, lemma_div_round_scale_le, DUTY_SCALE, PERIOD_MAX,
};

verus! {

/// The pulse of one PWM period: the output is held deasserted for
/// `inactive_micros`, then asserted for `active_micros`.
#[derive(Clone, Copy, Debug)]
pub struct PwmPulse {
    /// Leading deasserted stretch, in microseconds.
    pub inactive_micros: u64,
    /// Trailing asserted stretch, in microseconds.
    pub active_micros: u64,
}

/// What the output does for one whole period.
#[derive(Clone, Copy, Debug)]
pub enum PwmCommand {
    /// Hold the output deasserted for the whole period: the fan is off.
    SteadyOff,
    /// Emit one pulse: the fan runs at the pulse's duty cycle.
    Pulse(PwmPulse),
}

/// The asserted share of a period, rounded to the nearest microsecond.
pub open spec fn active_time(duty: int, period: int) -> int {
    div_round(duty * period, DUTY_SCALE as int)
}

/// The pulse a duty cycle commands for one period.
pub open spec fn pulse_spec(duty: int, period: int) -> PwmPulse {
    PwmPulse {
        inactive_micros: (period - active_time(duty, period)) as u64,
        active_micros: active_time(duty, period) as u64,
    }
}

/// Splits one period between the asserted and the deasserted level.
pub fn pulse_times(duty: u64, period: u64) -> (p: PwmPulse)
    requires
        fraction_ok(duty as int),
        1 <= period <= PERIOD_MAX,
    ensures
        p == pulse_spec(duty as int, period as int),
        p.active_micros == active_time(duty as int, period as int),
        p.active_micros + p.inactive_micros == period,
        duty == DUTY_SCALE ==> p.active_micros == period,
        duty == 0 ==> p.active_micros == 0,
{
    proof {
        assert(duty * period <= 1_000_000_000_000) by (nonlinear_arith)
            requires 0 <= duty <= 1_000_000, 0 <= period <= 1_000_000;
        lemma_div_round_scale_le(duty as int, period as int, DUTY_SCALE as int);
        let s = DUTY_SCALE as int;
        vstd::arithmetic::div_mod::lemma_div_pos_is_pos(s, 2);
        vstd::arithmetic::div_mod::lemma_div_decreases(s, 2);
        if duty == DUTY_SCALE {
            vstd::arithmetic::div_mod::lemma_div_multiples_vanish_fancy(period as int, s / 2, s);
            assert(duty * period == s * (period as int)) by (nonlinear_arith)
                requires duty == DUTY_SCALE, s == DUTY_SCALE as int;
        }
        if duty == 0 {
            assert(duty * period == 0) by (nonlinear_arith)
                requires duty == 0;
            vstd::arithmetic::div_mod::lemma_basic_div(s / 2, s);
        }
    }
    let active: u64 = div_round_u64(duty * period, DUTY_SCALE);
    PwmPulse { inactive_micros: period - active, active_micros: active }
}

} // verus!
