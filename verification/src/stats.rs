//! Statistics aggregation over one reporting period.
//!
//! Each control cycle that reaches the aggregator contributes one sample:
//! the raw (undampened) temperature if one was read, the fan state, and
//! the commanded duty cycle.  The aggregator keeps counts, sums, and
//! softened extremes, and decides when the period should be flushed to
//! durable storage.
//!
//! The extremes are deliberately softened: a new extreme does not replace
//! the accumulated one outright but is blended at one tenth weight, so a
//! single outlier sample cannot dominate the report.

use vstd::prelude::*;
use crate::config::ControlConfig;
use crate::units::{
    temp_ok, opt_temp_ok, fraction_ok, div_round, div_round_i64, div_round_u64,
    lemma_div_round_monotone, lemma_div_round_tenth, DUTY_SCALE, TEMP_LIMIT, COUNT_LIMIT,
};

verus! {

/// Softened minimum: the accumulated extreme `acc` keeps its place when
/// it is smaller; otherwise it moves one tenth of the way to the new
/// value `v`.
pub open spec fn soft_min(acc: int, v: int) -> int {
    if acc < v {
        acc
    } else {
        div_round(9 * acc + v, 10)
    }
}

/// Softened maximum, symmetric to `soft_min`.
pub open spec fn soft_max(acc: int, v: int) -> int {
    if acc > v {
        acc
    } else {
        div_round(9 * acc + v, 10)
    }
}

/// The softened minimum lies between the smaller input and `acc`.
pub proof fn lemma_soft_min_between(acc: int, v: int)
    ensures
        v <= acc ==> v <= soft_min(acc, v) <= acc,
        soft_min(acc, v) <= acc,
        v <= soft_min(acc, v) || acc <= soft_min(acc, v),
{
    if !(acc < v) {
        lemma_div_round_monotone(10 * v, 9 * acc + v, 10);
        lemma_div_round_monotone(9 * acc + v, 10 * acc, 10);
        lemma_div_round_tenth(v);
        lemma_div_round_tenth(acc);
    }
}

/// The softened maximum lies between `acc` and the larger input.
pub proof fn lemma_soft_max_between(acc: int, v: int)
    ensures
        acc <= v ==> acc <= soft_max(acc, v) <= v,
        soft_max(acc, v) >= acc,
{
    if !(acc > v) {
        lemma_div_round_monotone(10 * acc, 9 * acc + v, 10);
        lemma_div_round_monotone(9 * acc + v, 10 * v, 10);
        lemma_div_round_tenth(acc);
        lemma_div_round_tenth(v);
    }
}

/// Combines an optional accumulated minimum with an optional new value:
/// an absent side defers to the other.
pub open spec fn opt_soft_min_temp(acc: Option<i64>, v: Option<i64>) -> Option<i64> {
    match (acc, v) {
        (Option::Some(x), Option::Some(y)) => Option::Some(soft_min(x as int, y as int) as i64),
        (Option::Some(x), Option::None) => Option::Some(x),
        (Option::None, Option::Some(y)) => Option::Some(y),
        (Option::None, Option::None) => Option::None,
    }
}

/// Optional softened maximum for temperatures.
pub open spec fn opt_soft_max_temp(acc: Option<i64>, v: Option<i64>) -> Option<i64> {
    match (acc, v) {
        (Option::Some(x), Option::Some(y)) => Option::Some(soft_max(x as int, y as int) as i64),
        (Option::Some(x), Option::None) => Option::Some(x),
        (Option::None, Option::Some(y)) => Option::Some(y),
        (Option::None, Option::None) => Option::None,
    }
}

/// Optional softened minimum for fan speeds.
pub open spec fn opt_soft_min_speed(acc: Option<u64>, v: Option<u64>) -> Option<u64> {
    match (acc, v) {
        (Option::Some(x), Option::Some(y)) => Option::Some(soft_min(x as int, y as int) as u64),
        (Option::Some(x), Option::None) => Option::Some(x),
        (Option::None, Option::Some(y)) => Option::Some(y),
        (Option::None, Option::None) => Option::None,
    }
}

/// Optional softened maximum for fan speeds.
pub open spec fn opt_soft_max_speed(acc: Option<u64>, v: Option<u64>) -> Option<u64> {
    match (acc, v) {
        (Option::Some(x), Option::Some(y)) => Option::Some(soft_max(x as int, y as int) as u64),
        (Option::Some(x), Option::None) => Option::Some(x),
        (Option::None, Option::Some(y)) => Option::Some(y),
        (Option::None, Option::None) => Option::None,
    }
}

/// One sample handed to the aggregator.
#[derive(Clone, Copy, Debug)]
pub struct StatSample {
    /// The raw temperature read this cycle, if any.
    pub temp: Option<i64>,
    /// Whether the fan is running.
    pub fan_on: bool,
    /// The duty cycle currently commanded.
    pub duty: u64,
    /// Monotonic time of the sample, in microseconds.
    pub now: u64,
}

/// A sample the aggregator is prepared to take.
pub open spec fn sample_ok(s: StatSample) -> bool {
    opt_temp_ok(s.temp) && fraction_ok(s.duty as int)
}

/// The accumulator of one statistics period.
#[derive(Clone, Copy, Debug)]
pub struct StatPeriod {
    /// Samples accumulated this period.
    pub count: u64,
    /// Samples with a valid temperature.
    pub n_temp: u64,
    /// Samples taken with the fan on.
    pub n_fan: u64,
    /// Softened minimum of the valid temperatures.
    pub temp_min: Option<i64>,
    /// Softened maximum of the valid temperatures.
    pub temp_max: Option<i64>,
    /// Sum of the valid temperatures.
    pub temp_sum: i64,
    /// Softened minimum of the duty cycles while the fan ran.
    pub speed_min: Option<u64>,
    /// Softened maximum of the duty cycles while the fan ran.
    pub speed_max: Option<u64>,
    /// Sum of the duty cycles while the fan ran.
    pub speed_sum: u64,
    /// Fan state at the previous sample, for change detection.
    pub fan_prev: bool,
    /// Time of the first sample of this period, in microseconds.
    pub period_start: u64,
}

impl StatPeriod {
    /// The accumulator's invariant.
    pub open spec fn wf(self) -> bool {
        &&& self.count <= COUNT_LIMIT
        &&& self.n_temp <= self.count
        &&& self.n_fan <= self.count
        &&& -(self.n_temp * TEMP_LIMIT) <= self.temp_sum <= self.n_temp * TEMP_LIMIT
        &&& self.speed_sum <= self.n_fan * DUTY_SCALE
        &&& (self.n_temp == 0 <==> self.temp_min is None)
        &&& (self.n_temp == 0 <==> self.temp_max is None)
        &&& (self.n_temp == 0 ==> self.temp_sum == 0)
        &&& (self.n_fan == 0 <==> self.speed_min is None)
        &&& (self.n_fan == 0 <==> self.speed_max is None)
        &&& (self.n_fan == 0 ==> self.speed_sum == 0)
        &&& match (self.temp_min, self.temp_max) {
            (Option::Some(lo), Option::Some(hi)) =>
                temp_ok(lo as int) && temp_ok(hi as int) && lo <= hi,
            _ => true,
        }
        &&& match (self.speed_min, self.speed_max) {
            (Option::Some(lo), Option::Some(hi)) =>
                fraction_ok(lo as int) && fraction_ok(hi as int) && lo <= hi,
            _ => true,
        }
        &&& (self.count == 0 ==> self.n_temp == 0 && self.n_fan == 0)
    }

    /// An accumulator holding no samples.
    pub open spec fn is_empty(self) -> bool {
        self.count == 0
    }

    /// A fresh accumulator: no samples, fan remembered as off.
    pub fn startup() -> (s: StatPeriod)
        ensures
            s.wf(),
            s.is_empty(),
            !s.fan_prev,
            s.period_start == 0,
    {
        StatPeriod {
            count: 0,
            n_temp: 0,
            n_fan: 0,
            temp_min: None,
            temp_max: None,
            temp_sum: 0,
            speed_min: None,
            speed_max: None,
            speed_sum: 0,
            fan_prev: false,
            period_start: 0,
        }
    }
}

/// The accumulator after taking one sample.  The first sample of a
/// period starts the period clock and seeds every aggregate with its own
/// value.
pub open spec fn stat_update_spec(s: StatPeriod, smp: StatSample) -> StatPeriod {
    let speed = if smp.fan_on {
        Option::Some(smp.duty)
    } else {
        Option::<u64>::None
    };
    StatPeriod {
        count: (s.count + 1) as u64,
        n_temp: (s.n_temp + (if smp.temp is Some { 1int } else { 0 })) as u64,
        n_fan: (s.n_fan + (if smp.fan_on { 1int } else { 0 })) as u64,
        temp_min: opt_soft_min_temp(s.temp_min, smp.temp),
        temp_max: opt_soft_max_temp(s.temp_max, smp.temp),
        temp_sum: (s.temp_sum + (match smp.temp {
            Option::Some(v) => v as int,
            Option::None => 0,
        })) as i64,
        speed_min: opt_soft_min_speed(s.speed_min, speed),
        speed_max: opt_soft_max_speed(s.speed_max, speed),
        speed_sum: (s.speed_sum + (if smp.fan_on { smp.duty as int } else { 0 })) as u64,
        fan_prev: smp.fan_on,
        period_start: if s.count == 0 { smp.now } else { s.period_start },
    }
}

/// Softened temperature minimum, executable form.
fn soft_min_temp(acc: i64, v: i64) -> (r: i64)
    requires
        temp_ok(acc as int),
        temp_ok(v as int),
    ensures
        r == soft_min(acc as int, v as int),
        temp_ok(r as int),
        r <= acc,
    // the result never undercuts the smaller input
        v <= r || acc <= r,
{
    proof {
        lemma_soft_min_between(acc as int, v as int);
    }
    if acc < v {
        acc
    } else {
        div_round_i64(9 * acc + v, 10)
    }
}

/// Softened temperature maximum, executable form.
fn soft_max_temp(acc: i64, v: i64) -> (r: i64)
    requires
        temp_ok(acc as int),
        temp_ok(v as int),
    ensures
        r == soft_max(acc as int, v as int),
        temp_ok(r as int),
        r >= acc,
        r <= v || r <= acc,
{
    proof {
        lemma_soft_max_between(acc as int, v as int);
    }
    if acc > v {
        acc
    } else {
        div_round_i64(9 * acc + v, 10)
    }
}

/// Softened speed minimum, executable form.
fn soft_min_speed(acc: u64, v: u64) -> (r: u64)
    requires
        fraction_ok(acc as int),
        fraction_ok(v as int),
    ensures
        r == soft_min(acc as int, v as int),
        fraction_ok(r as int),
        r <= acc,
{
    proof {
        lemma_soft_min_between(acc as int, v as int);
    }
    if acc < v {
        acc
    } else {
        div_round_u64(9 * acc + v, 10)
    }
}

/// Softened speed maximum, executable form.
fn soft_max_speed(acc: u64, v: u64) -> (r: u64)
    requires
        fraction_ok(acc as int),
        fraction_ok(v as int),
    ensures
        r == soft_max(acc as int, v as int),
        fraction_ok(r as int),
        r >= acc,
        r <= v || r <= acc,
{
    proof {
        lemma_soft_max_between(acc as int, v as int);
    }
    if acc > v {
        acc
    } else {
        div_round_u64(9 * acc + v, 10)
    }
}

impl StatPeriod {
    /// Takes one sample.  Returns whether the fan state changed since
    /// the previous sample.
    pub fn update(&mut self, smp: StatSample) -> (fan_changed: bool)
        requires
            old(self).wf(),
            old(self).count < COUNT_LIMIT,
            sample_ok(smp),
        ensures
            *final(self) == stat_update_spec(*old(self), smp),
            final(self).wf(),
            fan_changed == (smp.fan_on != old(self).fan_prev),
    {
        let fan_changed: bool = smp.fan_on != self.fan_prev;
        if self.count == 0 {
            self.period_start = smp.now;
        }
        self.count = self.count + 1;
        match smp.temp {
            Some(v) => {
                self.n_temp = self.n_temp + 1;
                self.temp_sum = self.temp_sum + v;
                self.temp_min = Some(match self.temp_min {
                    Some(acc) => soft_min_temp(acc, v),
                    None => v,
                });
                self.temp_max = Some(match self.temp_max {
                    Some(acc) => soft_max_temp(acc, v),
                    None => v,
                });
            },
            None => {},
        }
        if smp.fan_on {
            self.n_fan = self.n_fan + 1;
            self.speed_sum = self.speed_sum + smp.duty;
            self.speed_min = Some(match self.speed_min {
                Some(acc) => soft_min_speed(acc, smp.duty),
                None => smp.duty,
            });
            self.speed_max = Some(match self.speed_max {
                Some(acc) => soft_max_speed(acc, smp.duty),
                None => smp.duty,
            });
        }
        self.fan_prev = smp.fan_on;
        fan_changed
    }

    /// Empties the accumulator for the next period.  The remembered fan
    /// state carries over, so change detection spans periods.
    pub fn reset(&mut self)
        ensures
            final(self).wf(),
            final(self).is_empty(),
            final(self).count == 0,
            final(self).n_temp == 0,
            final(self).n_fan == 0,
            final(self).temp_min is None,
            final(self).temp_max is None,
            final(self).temp_sum == 0,
            final(self).speed_min is None,
            final(self).speed_max is None,
            final(self).speed_sum == 0,
            final(self).fan_prev == old(self).fan_prev,
            final(self).period_start == old(self).period_start,
    {
        self.count = 0;
        self.n_temp = 0;
        self.n_fan = 0;
        self.temp_min = None;
        self.temp_max = None;
        self.temp_sum = 0;
        self.speed_min = None;
        self.speed_max = None;
        self.speed_sum = 0;
    }

    /// The running mean of the valid temperatures this period.
    pub open spec fn temp_avg_spec(self) -> Option<i64> {
        if self.n_temp == 0 {
            Option::None
        } else {
            Option::Some(div_round(self.temp_sum as int, self.n_temp as int) as i64)
        }
    }

    /// Computes the running mean of the valid temperatures.
    pub fn temp_avg(&self) -> (r: Option<i64>)
        requires
            self.wf(),
        ensures
            r == self.temp_avg_spec(),
    {
        if self.n_temp == 0 {
            None
        } else {
            Some(div_round_i64(self.temp_sum, self.n_temp as i64))
        }
    }

    /// The running mean of the duty cycles while the fan ran.
    pub open spec fn speed_avg_spec(self) -> Option<u64> {
        if self.n_fan == 0 {
            Option::None
        } else {
            Option::Some(div_round(self.speed_sum as int, self.n_fan as int) as u64)
        }
    }

    /// Computes the running mean of the fan-on duty cycles.
    pub fn speed_avg(&self) -> (r: Option<u64>)
        requires
            self.wf(),
        ensures
            r == self.speed_avg_spec(),
    {
        if self.n_fan == 0 {
            None
        } else {
            proof {
                assert(self.speed_sum <= 1_000_000_000_000_000) by {
                    assert(self.n_fan * DUTY_SCALE <= 1_000_000_000 * 1_000_000)
                        by (nonlinear_arith)
                        requires 0 <= self.n_fan <= 1_000_000_000, DUTY_SCALE == 1_000_000u64;
                }
            }
            Some(div_round_u64(self.speed_sum, self.n_fan))
        }
    }

    /// The share of samples taken with the fan on, in parts per million.
    pub open spec fn fan_fraction_spec(self) -> int {
        if self.count == 0 {
            0
        } else {
            div_round(self.n_fan * DUTY_SCALE, self.count as int)
        }
    }

    /// Computes the fan-on share of this period.
    pub fn fan_on_fraction(&self) -> (r: u64)
        requires
            self.wf(),
        ensures
            r == self.fan_fraction_spec(),
            fraction_ok(r as int),
    {
        if self.count == 0 {
            0
        } else {
            proof {
                assert(self.n_fan * DUTY_SCALE <= 1_000_000_000_000_000) by (nonlinear_arith)
                    requires 0 <= self.n_fan <= 1_000_000_000, DUTY_SCALE == 1_000_000u64;
                crate::units::lemma_div_round_scale_le(
                    self.n_fan as int,
                    DUTY_SCALE as int,
                    self.count as int,
                );
                assert(self.n_fan * DUTY_SCALE == DUTY_SCALE * self.n_fan)
                    by (nonlinear_arith);
            }
            div_round_u64(self.n_fan * DUTY_SCALE, self.count)
        }
    }

    /// The spread between the softened extremes, zero while no valid
    /// temperature has been seen.
    pub open spec fn temp_spread_spec(self) -> int {
        match (self.temp_min, self.temp_max) {
            (Option::Some(lo), Option::Some(hi)) => hi - lo,
            _ => 0,
        }
    }

    /// Computes the temperature spread of this period.
    pub fn temp_spread(&self) -> (r: i64)
        requires
            self.wf(),
        ensures
            r == self.temp_spread_spec(),
            r >= 0,
    {
        match (self.temp_min, self.temp_max) {
            (Some(lo), Some(hi)) => hi - lo,
            _ => 0,
        }
    }
}

/// Whether the period is due to be flushed at time `now`: the minimum
/// age has passed and either the temperature spread or a fan state
/// change makes the period worth reporting; or the maximum age has
/// passed; or a shutdown or reload signal is pending.
pub open spec fn flush_due_spec(
    s: StatPeriod, cfg: ControlConfig, now: int, fan_changed: bool, signal: bool,
) -> bool {
    let elapsed_secs = (now - s.period_start) / 1_000_000;
    ||| elapsed_secs >= cfg.stat_min_secs && s.temp_spread_spec() >= cfg.stat_delta_t
    ||| elapsed_secs >= cfg.stat_min_secs && fan_changed
    ||| elapsed_secs >= cfg.stat_max_secs
    ||| signal
}

/// One row handed to the persistence interface: the aggregates of a
/// finished period.  An absent value records that no sample of its kind
/// was seen.
#[derive(Clone, Copy, Debug)]
pub struct StatRecord {
    /// Time of the first sample of the period, in microseconds.
    pub period_start: u64,
    /// Samples the period accumulated.
    pub samples: u64,
    /// Softened minimum of the valid temperatures.
    pub temp_min: Option<i64>,
    /// Softened maximum of the valid temperatures.
    pub temp_max: Option<i64>,
    /// Mean of the valid temperatures.
    pub temp_avg: Option<i64>,
    /// Share of samples taken with the fan on, in parts per million.
    pub fan_on_fraction: u64,
    /// Softened minimum of the fan-on duty cycles.
    pub speed_min: Option<u64>,
    /// Softened maximum of the fan-on duty cycles.
    pub speed_max: Option<u64>,
    /// Mean of the fan-on duty cycles.
    pub speed_avg: Option<u64>,
}

/// The row a period reports: its aggregates, read off the accumulator.
pub open spec fn record_spec(s: StatPeriod) -> StatRecord {
    StatRecord {
        period_start: s.period_start,
        samples: s.count,
        temp_min: s.temp_min,
        temp_max: s.temp_max,
        temp_avg: s.temp_avg_spec(),
        fan_on_fraction: s.fan_fraction_spec() as u64,
        speed_min: s.speed_min,
        speed_max: s.speed_max,
        speed_avg: s.speed_avg_spec(),
    }
}

impl StatPeriod {
    /// Decides whether this period should be flushed now.
    pub fn should_flush(&self, cfg: &ControlConfig, now: u64, fan_changed: bool, signal: bool)
        -> (r: bool)
        requires
            self.wf(),
            cfg.wf(),
            self.period_start <= now,
        ensures
            r == flush_due_spec(*self, *cfg, now as int, fan_changed, signal),
    {
        let elapsed_secs: u64 = (now - self.period_start) / 1_000_000;
        let spread: i64 = self.temp_spread();
        (elapsed_secs >= cfg.stat_min_secs && spread >= cfg.stat_delta_t)
            || (elapsed_secs >= cfg.stat_min_secs && fan_changed)
            || elapsed_secs >= cfg.stat_max_secs
            || signal
    }

    /// The row this period would report if flushed now.
    pub fn snapshot(&self) -> (r: StatRecord)
        requires
            self.wf(),
        ensures
            r == record_spec(*self),
            r.fan_on_fraction == self.fan_fraction_spec(),
    {
        StatRecord {
            period_start: self.period_start,
            samples: self.count,
            temp_min: self.temp_min,
            temp_max: self.temp_max,
            temp_avg: self.temp_avg(),
            fan_on_fraction: self.fan_on_fraction(),
            speed_min: self.speed_min,
            speed_max: self.speed_max,
            speed_avg: self.speed_avg(),
        }
    }

    /// Takes the outcome of a persistence attempt: success empties the
    /// accumulator, failure keeps every sample for the next attempt.
    pub fn apply_flush(&mut self, success: bool)
        requires
            old(self).wf(),
        ensures
            final(self).wf(),
            success ==> final(self).is_empty()
                && final(self).fan_prev == old(self).fan_prev,
            !success ==> *final(self) == *old(self),
    {
        if success {
            self.reset();
        }
    }
}

/// The first sample after a flush seeds every aggregate with its own
/// value: minimum, maximum and mean all equal that sample exactly.
pub proof fn lemma_first_sample_seeds(s: StatPeriod, smp: StatSample)
    requires
        s.wf(),
        s.is_empty(),
        sample_ok(smp),
    ensures
        ({
            let s2 = stat_update_spec(s, smp);
            &&& s2.count == 1
            &&& s2.period_start == smp.now
            &&& s2.temp_min == smp.temp
            &&& s2.temp_max == smp.temp
            &&& s2.temp_avg_spec() == smp.temp
            &&& smp.fan_on ==> s2.speed_min == Option::Some(smp.duty)
                && s2.speed_max == Option::Some(smp.duty)
                && s2.speed_avg_spec() == Option::Some(smp.duty)
        }),
{
    match smp.temp {
        Option::Some(v) => {
            vstd::arithmetic::div_mod::lemma_div_multiples_vanish(v as int, 1);
            vstd::arithmetic::div_mod::lemma_div_multiples_vanish(-(v as int), 1);
        },
        Option::None => {},
    }
    if smp.fan_on {
        vstd::arithmetic::div_mod::lemma_div_multiples_vanish(smp.duty as int, 1);
    }
}

/// Taking a sample preserves the accumulator's invariant.
pub proof fn lemma_update_preserves_wf(s: StatPeriod, smp: StatSample)
    requires
        s.wf(),
        s.count < COUNT_LIMIT,
        sample_ok(smp),
    ensures
        stat_update_spec(s, smp).wf(),
{
    match (s.temp_min, s.temp_max, smp.temp) {
        (Option::Some(lo), Option::Some(hi), Option::Some(v)) => {
            lemma_soft_min_between(lo as int, v as int);
            lemma_soft_max_between(hi as int, v as int);
        },
        _ => {},
    }
    if smp.fan_on {
        match (s.speed_min, s.speed_max) {
            (Option::Some(lo), Option::Some(hi)) => {
                lemma_soft_min_between(lo as int, smp.duty as int);
                lemma_soft_max_between(hi as int, smp.duty as int);
            },
            _ => {},
        }
    }
}

/// The accumulator after taking a whole sequence of samples in order.
pub open spec fn stat_run(s0: StatPeriod, samples: Seq<StatSample>) -> StatPeriod
    decreases samples.len(),
{
    if samples.len() == 0 {
        s0
    } else {
        stat_update_spec(stat_run(s0, samples.drop_last()), samples.last())
    }
}

/// Sum of the duty cycles over a sequence of samples.
pub open spec fn duty_total(samples: Seq<StatSample>) -> int
    decreases samples.len(),
{
    if samples.len() == 0 {
        0
    } else {
        duty_total(samples.drop_last()) + samples.last().duty
    }
}

/// Sum of the valid temperatures over a sequence of samples.
pub open spec fn temp_total(samples: Seq<StatSample>) -> int
    decreases samples.len(),
{
    if samples.len() == 0 {
        0
    } else {
        temp_total(samples.drop_last()) + (match samples.last().temp {
            Option::Some(v) => v as int,
            Option::None => 0,
        })
    }
}

/// Number of samples carrying a valid temperature.
pub open spec fn temp_count(samples: Seq<StatSample>) -> int
    decreases samples.len(),
{
    if samples.len() == 0 {
        0
    } else {
        temp_count(samples.drop_last()) + (if samples.last().temp is Some { 1int } else { 0 })
    }
}

/// Feeding samples accumulates their counts and sums exactly.
proof fn lemma_stat_run_sums(s0: StatPeriod, samples: Seq<StatSample>)
    requires
        s0.wf(),
        s0.count + samples.len() <= COUNT_LIMIT,
        forall|k: int| 0 <= k < samples.len() ==> sample_ok(#[trigger] samples[k])
            && samples[k].fan_on,
    ensures
        ({
            let sf = stat_run(s0, samples);
            &&& sf.wf()
            &&& sf.count == s0.count + samples.len()
            &&& sf.n_fan == s0.n_fan + samples.len()
            &&& sf.speed_sum == s0.speed_sum + duty_total(samples)
            &&& sf.n_temp == s0.n_temp + temp_count(samples)
            &&& sf.temp_sum == s0.temp_sum + temp_total(samples)
        }),
    decreases samples.len(),
{
    if samples.len() > 0 {
        let prefix = samples.drop_last();
        assert(forall|k: int| 0 <= k < prefix.len()
            ==> sample_ok(#[trigger] prefix[k]) && prefix[k].fan_on);
        lemma_stat_run_sums(s0, prefix);
        let sp = stat_run(s0, prefix);
        assert(0 <= temp_count(prefix) <= prefix.len()) by {
            lemma_temp_count_bounds(prefix);
        }
        lemma_update_preserves_wf(sp, samples.last());
    }
}

/// The count of valid temperatures never exceeds the sample count.
proof fn lemma_temp_count_bounds(samples: Seq<StatSample>)
    ensures
        0 <= temp_count(samples) <= samples.len(),
    decreases samples.len(),
{
    if samples.len() > 0 {
        lemma_temp_count_bounds(samples.drop_last());
    }
}

/// Running-average law: after feeding fan-on samples into an empty
/// accumulator one by one, the reported mean duty cycle equals the
/// direct arithmetic mean of the fed values, and the reported mean
/// temperature equals the direct mean of the valid readings.
pub proof fn lemma_running_average_is_mean(s0: StatPeriod, samples: Seq<StatSample>)
    requires
        s0.wf(),
        s0.is_empty(),
        0 < samples.len() <= COUNT_LIMIT,
        forall|k: int| 0 <= k < samples.len() ==> sample_ok(#[trigger] samples[k])
            && samples[k].fan_on,
    ensures
        ({
            let sf = stat_run(s0, samples);
            &&& sf.speed_avg_spec()
                == Option::Some(div_round(duty_total(samples), samples.len() as int) as u64)
            &&& temp_count(samples) > 0 ==> sf.temp_avg_spec()
                == Option::Some(div_round(temp_total(samples), temp_count(samples)) as i64)
        }),
{
    lemma_stat_run_sums(s0, samples);
}

} // verus!
