//! Validated controller configuration.
//!
//! The control loop owns one immutable `ControlConfig`, built once before
//! the loop starts.  `ControlConfig::normalize` takes the raw values an
//! environment file may carry and clamps them into a well-formed
//! configuration, mirroring how each setting is defaulted and bounded.

use vstd::prelude::*;
use crate::units::{
    temp_ok, fraction_ok, div_round, div_round_u64, lemma_div_round_monotone, DUTY_SCALE,
    TEMP_LIMIT, PERIOD_MAX,
};

verus! {

/// Immutable settings of the control loop, in fixed-point units:
/// temperatures in milli-degrees Celsius, fractions in parts per million,
/// times in the unit each field names.
pub struct ControlConfig {
    /// At or below this temperature a running fan may turn off.
    pub off_temp: i64,
    /// At or below this temperature an idle fan stays off; the duty ramp
    /// starts here at `min_duty`.
    pub min_temp: i64,
    /// At or above this temperature the fan runs at `max_duty`.
    pub max_temp: i64,
    /// Lowest commanded duty cycle.
    pub min_duty: u64,
    /// Highest commanded duty cycle.
    pub max_duty: u64,
    /// Length of one PWM period, in microseconds.
    pub period_micros: u64,
    /// The sensor is sampled every this many control cycles.
    pub temp_cycle: u64,
    /// Weight of the previous filtered value when the temperature rises.
    pub factor_hot_old: u64,
    /// Weight of the new reading when the temperature rises.
    pub factor_hot_new: u64,
    /// Weight of the previous filtered value when the temperature falls.
    pub factor_cold_old: u64,
    /// Weight of the new reading when the temperature falls.
    pub factor_cold_new: u64,
    /// Minimum dwell between fan on/off flips, in microseconds.
    pub min_dwell_micros: u64,
    /// Rate limit between sensor-failure notifications, in microseconds.
    pub error_interval_micros: u64,
    /// Whether statistics are accumulated and persisted at all.
    pub stat_enabled: bool,
    /// Statistics are accumulated every this many control cycles.
    pub stat_cycle: u64,
    /// Earliest moment a statistics flush may trigger, in seconds.
    pub stat_min_secs: u64,
    /// Moment a flush triggers unconditionally, in seconds.
    pub stat_max_secs: u64,
    /// Temperature spread that lets a flush trigger at `stat_min_secs`.
    pub stat_delta_t: i64,
}

/// Longest dampening delay accepted, in milliseconds.
pub const DELAY_LIMIT_MS: u64 = 1_000_000_000;

/// Longest dwell and error-report intervals accepted.
pub const DWELL_LIMIT_MS: u64 = 1_000_000_000;

/// Longest statistics intervals accepted, in seconds (about one year).
pub const STAT_TIME_LIMIT_SECS: u64 = 31_536_000;

/// `x` forced into `[lo, hi]`.
pub open spec fn clamped(x: int, lo: int, hi: int) -> int {
    if x < lo {
        lo
    } else if x > hi {
        hi
    } else {
        x
    }
}

/// The largest divisor of `n` that is at most `k`, and 1 when `k < 1`.
pub open spec fn largest_divisor_le(n: int, k: int) -> int
    decreases k,
{
    if k <= 1 {
        1
    } else if n % k == 0 {
        k
    } else {
        largest_divisor_le(n, k - 1)
    }
}

/// `largest_divisor_le` names a divisor in range.
pub proof fn lemma_largest_divisor_le_props(n: int, k: int)
    requires
        1 <= n,
    ensures
        1 <= largest_divisor_le(n, k),
        largest_divisor_le(n, k) <= k || largest_divisor_le(n, k) == 1,
        n % largest_divisor_le(n, k) == 0,
    decreases k,
{
    if k <= 1 || n % k != 0 {
        if k <= 1 {
            assert(n % 1 == 0) by {
                vstd::arithmetic::div_mod::lemma_mod_multiples_basic(n, 1);
            }
        } else {
            lemma_largest_divisor_le_props(n, k - 1);
        }
    }
}

/// The settings as the environment delivers them, still unchecked.
/// Units are those of `ControlConfig`; frequencies are in hertz and
/// dampening delays in milliseconds.
#[derive(Clone, Copy, Debug)]
pub struct RawSettings {
    /// Fan-off threshold temperature.
    pub off_temp: i64,
    /// Fan-on threshold and duty ramp start.
    pub min_temp: i64,
    /// Full-speed temperature.
    pub max_temp: i64,
    /// Lowest duty cycle.
    pub min_duty: u64,
    /// Highest duty cycle.
    pub max_duty: u64,
    /// PWM frequency, in hertz.
    pub pwm_freq: u64,
    /// Temperature sampling frequency, in hertz; 0 samples every cycle.
    pub temp_freq: u64,
    /// Dampening delay for rising temperature, in milliseconds.
    pub delay_hot_ms: u64,
    /// Dampening delay for falling temperature, in milliseconds.
    pub delay_cold_ms: u64,
    /// Minimum dwell between fan flips, in milliseconds.
    pub dwell_ms: u64,
    /// Rate limit between sensor-failure notifications, in seconds.
    pub error_secs: u64,
    /// Whether statistics are kept at all.
    pub stat_enabled: bool,
    /// Statistics sampling frequency, in hertz; 0 samples every cycle.
    pub stat_freq: u64,
    /// Earliest statistics flush, in seconds.
    pub stat_min_secs: u64,
    /// Unconditional statistics flush, in seconds.
    pub stat_max_secs: u64,
    /// Temperature spread that lets a flush trigger early.
    pub stat_delta_t: i64,
}

/// Clamps a value into `[lo, hi]`.
fn clamp_u64(x: u64, lo: u64, hi: u64) -> (r: u64)
    requires
        lo <= hi,
    ensures
        r == clamped(x as int, lo as int, hi as int),
        lo <= r <= hi,
{
    if x < lo {
        lo
    } else if x > hi {
        hi
    } else {
        x
    }
}

/// Clamps a signed value into `[lo, hi]`.
fn clamp_i64(x: i64, lo: i64, hi: i64) -> (r: i64)
    requires
        lo <= hi,
    ensures
        r == clamped(x as int, lo as int, hi as int),
        lo <= r <= hi,
{
    if x < lo {
        lo
    } else if x > hi {
        hi
    } else {
        x
    }
}

/// Finds the largest divisor of `n` not exceeding `k`.
fn largest_divisor_at_most(n: u64, k: u64) -> (d: u64)
    requires
        1 <= n,
        1 <= k,
    ensures
        d == largest_divisor_le(n as int, k as int),
        1 <= d <= k,
        n % d == 0,
{
    proof {
        lemma_largest_divisor_le_props(n as int, k as int);
    }
    let mut j: u64 = k;
    while n % j != 0
        invariant
            1 <= j <= k,
            1 <= n,
            largest_divisor_le(n as int, k as int) == largest_divisor_le(n as int, j as int),
        decreases j,
    {
        proof {
            if j == 1 {
                vstd::arithmetic::div_mod::lemma_mod_multiples_basic(n as int, 1);
            }
        }
        j = j - 1;
    }
    j
}

/// Derives one dampening factor pair from its configured delay: the
/// weight of the new reading is the reciprocal of `sample_freq * delay`,
/// and no smoothing is applied when the delay does not exceed one sample
/// period.
fn derive_factors(sample_freq: u64, delay_ms: u64) -> (f: (u64, u64))
    requires
        1 <= sample_freq <= 1_000_000,
        delay_ms <= DELAY_LIMIT_MS,
    ensures
        f.0 + f.1 == DUTY_SCALE,
        sample_freq * delay_ms > 1000 ==> f.1 == div_round(
            1_000_000_000,
            sample_freq * delay_ms,
        ),
        sample_freq * delay_ms <= 1000 ==> f.1 == DUTY_SCALE && f.0 == 0,
        f.0 == DUTY_SCALE - f.1,
{
    proof {
        assert(sample_freq * delay_ms <= 1_000_000_000_000_000) by (nonlinear_arith)
            requires 0 <= sample_freq <= 1_000_000, 0 <= delay_ms <= 1_000_000_000;
    }
    let denom: u64 = sample_freq * delay_ms;
    if denom > 1000 {
        proof {
            lemma_div_round_monotone(1_000_000_000, 1_000_000 * (denom as int), denom as int);
            vstd::arithmetic::div_mod::lemma_div_pos_is_pos(denom as int, 2);
            vstd::arithmetic::div_mod::lemma_div_decreases(denom as int, 2);
            vstd::arithmetic::div_mod::lemma_div_multiples_vanish_fancy(
                1_000_000,
                (denom as int) / 2,
                denom as int,
            );
        }
        let f_new: u64 = div_round_u64(1_000_000_000, denom);
        (DUTY_SCALE - f_new, f_new)
    } else {
        (0, DUTY_SCALE)
    }
}

impl ControlConfig {
    /// The invariant every configuration the controller runs with obeys.
    pub open spec fn wf(self) -> bool {
        &&& temp_ok(self.off_temp as int)
        &&& temp_ok(self.min_temp as int)
        &&& temp_ok(self.max_temp as int)
        &&& self.off_temp <= self.min_temp <= self.max_temp
        &&& fraction_ok(self.min_duty as int)
        &&& fraction_ok(self.max_duty as int)
        &&& self.min_duty <= self.max_duty
        &&& 1 <= self.period_micros <= PERIOD_MAX
        &&& 1 <= self.temp_cycle
        &&& self.factor_hot_old + self.factor_hot_new == DUTY_SCALE
        &&& self.factor_cold_old + self.factor_cold_new == DUTY_SCALE
        &&& 1 <= self.stat_cycle
        &&& 1 <= self.stat_min_secs <= self.stat_max_secs
        &&& 0 <= self.stat_delta_t
    }

    /// Builds a well-formed configuration from unchecked settings,
    /// clamping and ordering every value exactly as its bounds demand:
    /// thresholds are forced into range and into `off <= min <= max`
    /// order, duties into `[0, 1]` with `min <= max`, the sampling and
    /// statistics frequencies onto divisors of the PWM frequency, and
    /// the dampening factors are derived from their delays.
    pub fn normalize(raw: &RawSettings) -> (cfg: ControlConfig)
        ensures
            cfg.wf(),
            cfg.off_temp == clamped(raw.off_temp as int, -(TEMP_LIMIT as int), TEMP_LIMIT as int),
            cfg.min_temp == ({
                let m = clamped(raw.min_temp as int, -(TEMP_LIMIT as int), TEMP_LIMIT as int);
                if m < cfg.off_temp { cfg.off_temp as int } else { m }
            }),
            cfg.max_temp == ({
                let m = clamped(raw.max_temp as int, -(TEMP_LIMIT as int), TEMP_LIMIT as int);
                if m < cfg.min_temp { cfg.min_temp as int } else { m }
            }),
            cfg.min_duty == clamped(raw.min_duty as int, 0, DUTY_SCALE as int),
            cfg.max_duty == clamped(raw.max_duty as int, cfg.min_duty as int, DUTY_SCALE as int),
            cfg.period_micros == 1_000_000int / clamped(raw.pwm_freq as int, 1, 1_000_000),
            ({
                let pf = clamped(raw.pwm_freq as int, 1, 1_000_000);
                let tf0 = clamped(raw.temp_freq as int, 0, pf);
                let tf = if tf0 == 0 { pf } else { largest_divisor_le(pf, tf0) };
                &&& cfg.temp_cycle == pf / tf
                &&& {
                    let dh = clamped(raw.delay_hot_ms as int, 0, DELAY_LIMIT_MS as int);
                    let dc = clamped(raw.delay_cold_ms as int, 0, DELAY_LIMIT_MS as int);
                    &&& cfg.factor_hot_new == (if tf * dh > 1000 {
                        div_round(1_000_000_000, tf * dh)
                    } else {
                        DUTY_SCALE as int
                    })
                    &&& cfg.factor_hot_old == DUTY_SCALE - cfg.factor_hot_new
                    &&& cfg.factor_cold_new == (if tf * dc > 1000 {
                        div_round(1_000_000_000, tf * dc)
                    } else {
                        DUTY_SCALE as int
                    })
                    &&& cfg.factor_cold_old == DUTY_SCALE - cfg.factor_cold_new
                }
            }),
            cfg.min_dwell_micros
                == clamped(raw.dwell_ms as int, 0, DWELL_LIMIT_MS as int) * 1000,
            cfg.error_interval_micros
                == clamped(raw.error_secs as int, 0, DWELL_LIMIT_MS as int) * 1_000_000,
            cfg.stat_enabled == raw.stat_enabled,
            ({
                let pf = clamped(raw.pwm_freq as int, 1, 1_000_000);
                let sf0 = clamped(raw.stat_freq as int, 0, pf);
                let sf = if sf0 == 0 { pf } else { largest_divisor_le(pf, sf0) };
                cfg.stat_cycle == pf / sf
            }),
            cfg.stat_min_secs
                == clamped(raw.stat_min_secs as int, 1, STAT_TIME_LIMIT_SECS as int),
            cfg.stat_max_secs == ({
                let m = clamped(raw.stat_max_secs as int, 1, STAT_TIME_LIMIT_SECS as int);
                if m < cfg.stat_min_secs { cfg.stat_min_secs as int } else { m }
            }),
            cfg.stat_delta_t == clamped(raw.stat_delta_t as int, 0, TEMP_LIMIT as int),
    {
        let off_temp = clamp_i64(raw.off_temp, -TEMP_LIMIT, TEMP_LIMIT);
        let min_temp0 = clamp_i64(raw.min_temp, -TEMP_LIMIT, TEMP_LIMIT);
        let min_temp = if min_temp0 < off_temp { off_temp } else { min_temp0 };
        let max_temp0 = clamp_i64(raw.max_temp, -TEMP_LIMIT, TEMP_LIMIT);
        let max_temp = if max_temp0 < min_temp { min_temp } else { max_temp0 };

        let min_duty = clamp_u64(raw.min_duty, 0, DUTY_SCALE);
        let max_duty = clamp_u64(raw.max_duty, min_duty, DUTY_SCALE);

        let pwm_freq = clamp_u64(raw.pwm_freq, 1, 1_000_000);
        proof {
            vstd::arithmetic::div_mod::lemma_div_by_self(pwm_freq as int);
            vstd::arithmetic::div_mod::lemma_div_is_ordered(
                pwm_freq as int, 1_000_000, pwm_freq as int,
            );
            vstd::arithmetic::div_mod::lemma_div_nonincreasing(1_000_000, pwm_freq as int);
            vstd::arithmetic::div_mod::lemma_div_pos_is_pos(1_000_000, pwm_freq as int);
        }
        let period_micros: u64 = 1_000_000 / pwm_freq;

        let tf0 = clamp_u64(raw.temp_freq, 0, pwm_freq);
        let tf = if tf0 == 0 { pwm_freq } else { largest_divisor_at_most(pwm_freq, tf0) };
        proof {
            vstd::arithmetic::div_mod::lemma_div_by_self(tf as int);
            vstd::arithmetic::div_mod::lemma_div_is_ordered(tf as int, pwm_freq as int, tf as int);
            vstd::arithmetic::div_mod::lemma_div_nonincreasing(pwm_freq as int, tf as int);
        }
        let temp_cycle: u64 = pwm_freq / tf;

        let (factor_hot_old, factor_hot_new) =
            derive_factors(tf, clamp_u64(raw.delay_hot_ms, 0, DELAY_LIMIT_MS));
        let (factor_cold_old, factor_cold_new) =
            derive_factors(tf, clamp_u64(raw.delay_cold_ms, 0, DELAY_LIMIT_MS));

        let min_dwell_micros = clamp_u64(raw.dwell_ms, 0, DWELL_LIMIT_MS) * 1000;
        let error_interval_micros = clamp_u64(raw.error_secs, 0, DWELL_LIMIT_MS) * 1_000_000;

        let sf0 = clamp_u64(raw.stat_freq, 0, pwm_freq);
        let sf = if sf0 == 0 { pwm_freq } else { largest_divisor_at_most(pwm_freq, sf0) };
        proof {
            vstd::arithmetic::div_mod::lemma_div_by_self(sf as int);
            vstd::arithmetic::div_mod::lemma_div_is_ordered(sf as int, pwm_freq as int, sf as int);
            vstd::arithmetic::div_mod::lemma_div_nonincreasing(pwm_freq as int, sf as int);
        }
        let stat_cycle: u64 = pwm_freq / sf;

        let stat_min_secs = clamp_u64(raw.stat_min_secs, 1, STAT_TIME_LIMIT_SECS);
        let stat_max_secs0 = clamp_u64(raw.stat_max_secs, 1, STAT_TIME_LIMIT_SECS);
        let stat_max_secs =
            if stat_max_secs0 < stat_min_secs { stat_min_secs } else { stat_max_secs0 };
        let stat_delta_t = clamp_i64(raw.stat_delta_t, 0, TEMP_LIMIT);

        ControlConfig {
            off_temp,
            min_temp,
            max_temp,
            min_duty,
            max_duty,
            period_micros,
            temp_cycle,
            factor_hot_old,
            factor_hot_new,
            factor_cold_old,
            factor_cold_new,
            min_dwell_micros,
            error_interval_micros,
            stat_enabled: raw.stat_enabled,
            stat_cycle,
            stat_min_secs,
            stat_max_secs,
            stat_delta_t,
        }
    }
}

} // verus!
