//! One iteration of the control loop.
//!
//! Every period the loop polls the sensor on its cadence, filters the
//! reading, maps it to a duty cycle, lets the state machine decide
//! whether the fan runs, emits the PWM command for the period, and feeds
//! the statistics aggregator.  A cycle without a valid reading bypasses
//! the state machine and commands the maximum duty cycle, the fail-safe.
//!
//! The caller owns the clock, the sensor, the output line and the
//! persistence sink: it performs the PWM command and the flush attempt
//! this module decides on, and reports the flush outcome back.

use vstd::prelude::*;
use crate::config::ControlConfig;
use crate::duty::{duty_for_temp, map_duty};
use crate::fan::{FanState, fan_step, fan_step_spec};
use crate::filter::{filter_step, filter_step_spec};
use crate::pwm::{PwmCommand, pulse_spec, pulse_times};
use crate::stats::{
    StatPeriod, StatRecord, StatSample, stat_update_spec, flush_due_spec, record_spec,
};
use crate::units::{temp_ok, opt_temp_ok, fraction_ok, COUNT_LIMIT};

verus! {

/// What the sensor poll of one cycle yielded.
#[derive(Clone, Copy, Debug)]
pub enum SensorPoll {
    /// The sensor was due and delivered a reading (milli-degrees).
    Read(i64),
    /// The sensor was due and failed.
    ReadFailed,
    /// This cycle was not on the sampling cadence.
    Skipped,
}

/// The mutable state threaded through the loop, one owner, one writer.
#[derive(Clone, Copy, Debug)]
pub struct LoopState {
    /// Number of the current cycle, starting at 1.
    pub cycle: u64,
    /// The previous cycle's filtered temperature, if any yet.
    pub filtered: Option<i64>,
    /// The duty cycle currently commanded.
    pub duty: u64,
    /// The fan's on/off state and flip time.
    pub fan: FanState,
    /// The statistics accumulator of the running period.
    pub stats: StatPeriod,
}

/// The temperature this cycle works with: a fresh reading when one was
/// taken, the carried filtered value on an off-cadence cycle, absent on
/// a failed read or before the first reading.
pub open spec fn effective_reading(poll: SensorPoll, prev: Option<i64>) -> Option<i64> {
    match poll {
        SensorPoll::Read(t) => Option::Some(t),
        SensorPoll::ReadFailed => Option::None,
        SensorPoll::Skipped => prev,
    }
}

/// Whether the sensor is due on this cycle: the first cycle and then
/// every `temp_cycle`-th.
pub open spec fn sample_due_spec(s: LoopState, cfg: ControlConfig) -> bool {
    s.cycle % cfg.temp_cycle == 0 || s.cycle == 1
}

/// Whether statistics take a sample on this cycle.
pub open spec fn stat_due_spec(s: LoopState, cfg: ControlConfig, signal: bool) -> bool {
    cfg.stat_enabled && (s.cycle % cfg.stat_cycle == 0 || s.stats.count == 0 || signal)
}

/// What the caller must carry out after a cycle.
pub struct CycleOutput {
    /// The level pattern to drive on the output line for this period.
    pub command: PwmCommand,
    /// The duty cycle the PWM driver is invoked with.
    pub duty: u64,
    /// A statistics row to persist, if a flush is due.  The caller
    /// reports the outcome through `flush_result`.
    pub flush: Option<StatRecord>,
}

impl LoopState {
    /// A poll that fits this cycle's cadence and temperature range.
    pub open spec fn poll_ok(self, cfg: ControlConfig, poll: SensorPoll) -> bool {
        &&& (poll is Skipped <==> !sample_due_spec(self, cfg))
        &&& match poll {
            SensorPoll::Read(t) => temp_ok(t as int),
            _ => true,
        }
    }

    /// The state's invariant, relative to its configuration.
    pub open spec fn wf(self, cfg: ControlConfig) -> bool {
        &&& 1 <= self.cycle
        &&& opt_temp_ok(self.filtered)
        &&& fraction_ok(self.duty as int)
        &&& cfg.min_duty <= self.duty <= cfg.max_duty
        &&& self.stats.wf()
    }

    /// The state's clocks never run ahead of `now`.
    pub open spec fn seen_by(self, now: int) -> bool {
        &&& self.fan.seen_by(now)
        &&& (self.stats.count > 0 ==> self.stats.period_start <= now)
    }

    /// The state the loop starts in: fan on at the maximum duty cycle,
    /// nothing filtered or accumulated yet.
    pub fn startup(cfg: &ControlConfig) -> (s: LoopState)
        requires
            cfg.wf(),
        ensures
            s.wf(*cfg),
            s.cycle == 1,
            s.filtered is None,
            s.duty == cfg.max_duty,
            s.fan.on,
            s.fan.last_change is None,
            s.stats.is_empty(),
    {
        LoopState {
            cycle: 1,
            filtered: None,
            duty: cfg.max_duty,
            fan: FanState::startup(),
            stats: StatPeriod::startup(),
        }
    }

    /// Whether the sensor should be read on this cycle.
    pub fn sample_due(&self, cfg: &ControlConfig) -> (r: bool)
        requires
            cfg.wf(),
        ensures
            r == sample_due_spec(*self, *cfg),
    {
        self.cycle % cfg.temp_cycle == 0 || self.cycle == 1
    }

    /// Runs one control cycle at time `now`.
    ///
    /// With a valid temperature: the reading is filtered; the duty cycle
    /// is recomputed only when the filtered value changed, else reused
    /// byte for byte; the state machine decides the fan state; the
    /// command pulses at the commanded duty while the fan runs and holds
    /// the line deasserted while it does not.
    ///
    /// Without one: state machine, filter and duty cycle are left
    /// untouched and the command pulses at the maximum duty cycle.
    ///
    /// On the statistics cadence the aggregator takes a sample, and a
    /// flush row is handed back when one is due.  `signal` is a pending
    /// shutdown or reload, which forces a flush.
    pub fn cycle_step(&mut self, cfg: &ControlConfig, poll: SensorPoll, now: u64, signal: bool)
        -> (out: CycleOutput)
        requires
            cfg.wf(),
            old(self).wf(*cfg),
            old(self).seen_by(now as int),
            old(self).poll_ok(*cfg, poll),
            old(self).cycle < u64::MAX,
            old(self).stats.count < COUNT_LIMIT,
        ensures
            final(self).wf(*cfg),
            final(self).seen_by(now as int),
            final(self).cycle == old(self).cycle + 1,
            ({
                let s = *old(self);
                let raw = effective_reading(poll, s.filtered);
                let filtered = filter_step_spec(*cfg, s.filtered, raw);
                // the control half of the cycle
                &&& match raw {
                    Option::Some(r) => {
                        &&& final(self).filtered == filtered
                        &&& filtered matches Option::Some(f) ==> {
                            &&& final(self).fan == fan_step_spec(*cfg, s.fan, f as int, now)
                            &&& (s.filtered == Option::Some(f) ==> final(self).duty == s.duty)
                            &&& (s.filtered != Option::Some(f)
                                ==> final(self).duty == duty_for_temp(*cfg, f as int))
                        }
                        &&& out.duty == final(self).duty
                        &&& out.command == (if final(self).fan.on {
                            PwmCommand::Pulse(pulse_spec(
                                final(self).duty as int,
                                cfg.period_micros as int,
                            ))
                        } else {
                            PwmCommand::SteadyOff
                        })
                    },
                    Option::None => {
                        &&& final(self).filtered == s.filtered
                        &&& final(self).fan == s.fan
                        &&& final(self).duty == s.duty
                        &&& out.duty == cfg.max_duty
                        &&& out.command == PwmCommand::Pulse(pulse_spec(
                            cfg.max_duty as int,
                            cfg.period_micros as int,
                        ))
                    },
                }
                // the statistics half of the cycle
                &&& {
                    let due = stat_due_spec(s, *cfg, signal);
                    let smp = StatSample {
                        temp: raw,
                        fan_on: final(self).fan.on,
                        duty: final(self).duty,
                        now,
                    };
                    let updated = stat_update_spec(s.stats, smp);
                    let fan_changed = smp.fan_on != s.stats.fan_prev;
                    &&& !due ==> final(self).stats == s.stats && out.flush is None
                    &&& due ==> {
                        &&& final(self).stats == updated
                        &&& out.flush == (if flush_due_spec(
                            updated, *cfg, now as int, fan_changed, signal,
                        ) {
                            Option::Some(record_spec(updated))
                        } else {
                            Option::<StatRecord>::None
                        })
                    }
                }
            }),
    {
        let raw: Option<i64> = match poll {
            SensorPoll::Read(t) => Some(t),
            SensorPoll::ReadFailed => None,
            SensorPoll::Skipped => self.filtered,
        };

        let command: PwmCommand;
        let out_duty: u64;
        match raw {
            Some(_) => {
                let filtered = filter_step(cfg, self.filtered, raw);
                let f: i64 = match filtered {
                    Some(f) => f,
                    None => 0,  // unreachable: the reading is present
                };
                let same: bool = match self.filtered {
                    Some(p) => p == f,
                    None => false,
                };
                if !same {
                    self.duty = map_duty(cfg, f);
                }
                self.filtered = Some(f);
                fan_step(&mut self.fan, cfg, f, now);
                if self.fan.on {
                    command = PwmCommand::Pulse(pulse_times(self.duty, cfg.period_micros));
                } else {
                    command = PwmCommand::SteadyOff;
                }
                out_duty = self.duty;
            },
            None => {
                command = PwmCommand::Pulse(pulse_times(cfg.max_duty, cfg.period_micros));
                out_duty = cfg.max_duty;
            },
        }

        let flush: Option<StatRecord>;
        let due: bool = cfg.stat_enabled
            && (self.cycle % cfg.stat_cycle == 0 || self.stats.count == 0 || signal);
        if due {
            let smp = StatSample { temp: raw, fan_on: self.fan.on, duty: self.duty, now };
            let fan_changed = self.stats.update(smp);
            if self.stats.should_flush(cfg, now, fan_changed, signal) {
                flush = Some(self.stats.snapshot());
            } else {
                flush = None;
            }
        } else {
            flush = None;
        }

        self.cycle = self.cycle + 1;
        CycleOutput { command, duty: out_duty, flush }
    }

    /// Takes the outcome of the flush attempt this cycle asked for:
    /// success starts a fresh period, failure keeps every sample.
    pub fn flush_result(&mut self, cfg: &ControlConfig, success: bool)
        requires
            cfg.wf(),
            old(self).wf(*cfg),
        ensures
            final(self).wf(*cfg),
            success ==> final(self).stats.is_empty(),
            !success ==> final(self).stats == old(self).stats,
            final(self).stats.fan_prev == old(self).stats.fan_prev,
            final(self).cycle == old(self).cycle,
            final(self).filtered == old(self).filtered,
            final(self).duty == old(self).duty,
            final(self).fan == old(self).fan,
    {
        self.stats.apply_flush(success);
    }
}

} // verus!
