//! Hysteresis fan state machine with minimum dwell time.
//!
//! The fan is either on or off.  A decision step sees the filtered
//! temperature and the current time; it may flip the state only when the
//! minimum dwell time has elapsed since the last flip.  A freshly
//! constructed state has never flipped, so the first decision is
//! unconstrained.

use vstd::prelude::*;
use crate::config::ControlConfig;
use crate::units::temp_ok;

verus! {

/// On/off state of the fan, with the time of the last flip.
/// `last_change` is `None` until the first flip, so startup is not
/// held back by the dwell time.
#[derive(Clone, Copy, Debug)]
pub struct FanState {
    /// Whether the fan is running.
    pub on: bool,
    /// Monotonic time of the last on/off flip, in microseconds.
    pub last_change: Option<u64>,
}

impl FanState {
    /// The state's clock never runs ahead of `now`.
    pub open spec fn seen_by(self, now: int) -> bool {
        match self.last_change {
            Option::Some(t) => t <= now,
            Option::None => true,
        }
    }

    /// Whether the minimum dwell time has elapsed since the last flip.
    pub open spec fn dwell_elapsed(self, now: int, min_dwell: int) -> bool {
        match self.last_change {
            Option::Some(t) => now - t >= min_dwell,
            Option::None => true,
        }
    }

    /// The initial state: fan on, no flip recorded yet.
    pub fn startup() -> (s: FanState)
        ensures
            s.on,
            s.last_change is None,
    {
        FanState { on: true, last_change: None }
    }
}

/// Whether the fan runs after a decision at time `now`.
///
/// On: stays on above `off_temp`; at or below it, turns off once the
/// dwell time has elapsed.  Off: stays off at or below `min_temp`; above
/// it, turns on once the dwell time has elapsed.
pub open spec fn fan_next_on(cfg: ControlConfig, s: FanState, temp: int, now: int) -> bool {
    if s.on {
        temp > cfg.off_temp || !s.dwell_elapsed(now, cfg.min_dwell_micros as int)
    } else {
        temp > cfg.min_temp && s.dwell_elapsed(now, cfg.min_dwell_micros as int)
    }
}

/// Whether a decision at time `now` flips the state.
pub open spec fn fan_flips(cfg: ControlConfig, s: FanState, temp: int, now: int) -> bool {
    fan_next_on(cfg, s, temp, now) != s.on
}

/// The state after a decision: the flip time is recorded exactly when
/// the state flips.
pub open spec fn fan_step_spec(cfg: ControlConfig, s: FanState, temp: int, now: u64) -> FanState {
    FanState {
        on: fan_next_on(cfg, s, temp, now as int),
        last_change: if fan_flips(cfg, s, temp, now as int) {
            Option::Some(now)
        } else {
            s.last_change
        },
    }
}

/// One observation handed to the state machine: a filtered temperature
/// and the monotonic time of the decision.
pub struct FanInput {
    /// Filtered temperature, in milli-degrees Celsius.
    pub temp: i64,
    /// Time of the decision, in microseconds.
    pub now: u64,
}

/// The state after running the machine over a sequence of observations.
pub open spec fn fan_run(cfg: ControlConfig, s0: FanState, inputs: Seq<FanInput>) -> FanState
    decreases inputs.len(),
{
    if inputs.len() == 0 {
        s0
    } else {
        fan_step_spec(
            cfg,
            fan_run(cfg, s0, inputs.drop_last()),
            inputs.last().temp as int,
            inputs.last().now,
        )
    }
}

/// Whether the decision on observation `k` flips the state.
pub open spec fn fan_flip_at(cfg: ControlConfig, s0: FanState, inputs: Seq<FanInput>, k: int)
    -> bool {
    fan_flips(
        cfg,
        fan_run(cfg, s0, inputs.take(k)),
        inputs[k].temp as int,
        inputs[k].now as int,
    )
}

/// A flip records its time; further decisions without a flip keep it.
proof fn lemma_no_flip_keeps_change(
    cfg: ControlConfig, s0: FanState, inputs: Seq<FanInput>, i: int, j: int,
)
    requires
        0 <= i <= j <= inputs.len(),
        forall|k: int| i <= k < j ==> !fan_flip_at(cfg, s0, inputs, k),
    ensures
        fan_run(cfg, s0, inputs.take(j)).last_change
            == fan_run(cfg, s0, inputs.take(i)).last_change,
    decreases j - i,
{
    if i < j {
        lemma_no_flip_keeps_change(cfg, s0, inputs, i, j - 1);
        assert(inputs.take(j).drop_last() =~= inputs.take(j - 1));
        assert(inputs.take(j).last() == inputs[j - 1]);
        assert(!fan_flip_at(cfg, s0, inputs, j - 1));
    }
}

/// A flip cannot follow another flip within less than the minimum dwell
/// time, over any observation sequence: if observations `i` and `j` both
/// flip the state and none between them does, they lie at least
/// `min_dwell_micros` apart.
pub proof fn lemma_flips_dwell_separated(
    cfg: ControlConfig, s0: FanState, inputs: Seq<FanInput>, i: int, j: int,
)
    requires
        0 <= i < j < inputs.len(),
        fan_flip_at(cfg, s0, inputs, i),
        fan_flip_at(cfg, s0, inputs, j),
        forall|k: int| i < k < j ==> !fan_flip_at(cfg, s0, inputs, k),
    ensures
        inputs[j].now - inputs[i].now >= cfg.min_dwell_micros,
{
    assert(inputs.take(i + 1).drop_last() =~= inputs.take(i));
    assert(inputs.take(i + 1).last() == inputs[i]);
    assert(fan_run(cfg, s0, inputs.take(i + 1)).last_change == Option::Some(inputs[i].now));
    lemma_no_flip_keeps_change(cfg, s0, inputs, i + 1, j);
    let s_j = fan_run(cfg, s0, inputs.take(j));
    assert(s_j.last_change == Option::Some(inputs[i].now));
    assert(s_j.dwell_elapsed(inputs[j].now as int, cfg.min_dwell_micros as int));
}

/// One decision of the state machine, for a cycle with a valid filtered
/// temperature.  A flip is permitted only after the dwell time.
pub fn fan_step(s: &mut FanState, cfg: &ControlConfig, temp: i64, now: u64)
    requires
        cfg.wf(),
        temp_ok(temp as int),
        old(s).seen_by(now as int),
    ensures
        *final(s) == fan_step_spec(*cfg, *old(s), temp as int, now),
        final(s).seen_by(now as int),
        fan_flips(*cfg, *old(s), temp as int, now as int)
            ==> old(s).dwell_elapsed(now as int, cfg.min_dwell_micros as int),
{
    let dwell_ok: bool = match s.last_change {
        Some(t) => now - t >= cfg.min_dwell_micros,
        None => true,
    };
    let next_on: bool = if s.on {
        temp > cfg.off_temp || !dwell_ok
    } else {
        temp > cfg.min_temp && dwell_ok
    };
    if next_on != s.on {
        s.last_change = Some(now);
    }
    s.on = next_on;
}

} // verus!
