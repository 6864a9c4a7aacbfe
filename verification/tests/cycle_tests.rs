use fanctrl::config::ControlConfig;
use fanctrl::cycle::{LoopState, SensorPoll};
use fanctrl::pwm::PwmCommand;

fn loop_config() -> ControlConfig {
    ControlConfig {
        off_temp: 45_000,
        min_temp: 50_000,
        max_temp: 70_000,
        min_duty: 200_000,
        max_duty: 1_000_000,
        period_micros: 1_000,
        temp_cycle: 1,
        factor_hot_old: 0,
        factor_hot_new: 1_000_000,
        factor_cold_old: 0,
        factor_cold_new: 1_000_000,
        min_dwell_micros: 1_000_000,
        error_interval_micros: 60_000_000,
        stat_enabled: false,
        stat_cycle: 1,
        stat_min_secs: 60,
        stat_max_secs: 3_600,
        stat_delta_t: 5_000,
    }
}

#[test]
fn traced_scenario_matches_the_transition_table() {
    let cfg = loop_config();
    let mut s = LoopState::startup(&cfg);
    assert!(s.fan.on);
    // temperatures arrive one dwell apart, so dwell time never debounces
    let temps: [i64; 5] = [40_000, 55_000, 72_000, 44_000, 44_000];
    let expect_on: [bool; 5] = [false, true, true, false, false];
    let expect_duty: [u64; 5] = [200_000, 400_000, 1_000_000, 200_000, 200_000];
    let mut now: u64 = 2_000_000;
    for k in 0..5 {
        let out = s.cycle_step(&cfg, SensorPoll::Read(temps[k]), now, false);
        assert_eq!(s.fan.on, expect_on[k], "state at step {}", k);
        assert_eq!(s.duty, expect_duty[k], "duty at step {}", k);
        match out.command {
            PwmCommand::SteadyOff => assert!(!expect_on[k]),
            PwmCommand::Pulse(_) => assert!(expect_on[k]),
        }
        now += 2_000_000;
    }
}

#[test]
fn identical_filtered_temperatures_repeat_the_cycle_exactly() {
    let cfg = loop_config();
    let mut s = LoopState::startup(&cfg);
    let out1 = s.cycle_step(&cfg, SensorPoll::Read(60_000), 2_000_000, false);
    let duty1 = s.duty;
    let on1 = s.fan.on;
    let change1 = s.fan.last_change;
    let out2 = s.cycle_step(&cfg, SensorPoll::Read(60_000), 2_001_000, false);
    assert_eq!(s.duty, duty1);
    assert_eq!(s.fan.on, on1);
    assert_eq!(s.fan.last_change, change1);
    assert_eq!(out2.duty, out1.duty);
    match (out1.command, out2.command) {
        (PwmCommand::Pulse(p1), PwmCommand::Pulse(p2)) => {
            assert_eq!(p1.active_micros, p2.active_micros);
            assert_eq!(p1.inactive_micros, p2.inactive_micros);
        },
        (PwmCommand::SteadyOff, PwmCommand::SteadyOff) => {},
        _ => panic!("the two cycles diverged"),
    }
}

#[test]
fn missing_reading_commands_maximum_duty() {
    let cfg = loop_config();
    let mut s = LoopState::startup(&cfg);
    // drive the fan off first, then lose the sensor
    s.cycle_step(&cfg, SensorPoll::Read(40_000), 2_000_000, false);
    assert!(!s.fan.on);
    let before_fan = s.fan.last_change;
    let before_duty = s.duty;
    let out = s.cycle_step(&cfg, SensorPoll::ReadFailed, 4_000_000, false);
    assert_eq!(out.duty, cfg.max_duty);
    match out.command {
        PwmCommand::Pulse(p) => {
            assert_eq!(p.active_micros, 1_000);
            assert_eq!(p.inactive_micros, 0);
        },
        PwmCommand::SteadyOff => panic!("fail-safe must drive the fan"),
    }
    // the state machine was bypassed: state and dwell timer untouched
    assert!(!s.fan.on);
    assert_eq!(s.fan.last_change, before_fan);
    assert_eq!(s.duty, before_duty);
}

#[test]
fn skipped_cycles_carry_the_filtered_value() {
    let mut cfg = loop_config();
    cfg.temp_cycle = 4;
    let mut s = LoopState::startup(&cfg);
    assert!(s.sample_due(&cfg));
    let out = s.cycle_step(&cfg, SensorPoll::Read(60_000), 2_000_000, false);
    assert_eq!(out.duty, 600_000);
    // cycles 2 and 3 are off the cadence and reuse the reading
    for k in 0..2u64 {
        assert!(!s.sample_due(&cfg));
        let out = s.cycle_step(&cfg, SensorPoll::Skipped, 2_001_000 + k, false);
        assert_eq!(out.duty, 600_000);
        assert!(s.fan.on);
    }
    // cycle 4 samples again
    assert!(s.sample_due(&cfg));
}

#[test]
fn statistics_flow_through_the_loop() {
    let mut cfg = loop_config();
    cfg.stat_enabled = true;
    cfg.stat_min_secs = 1;
    cfg.stat_max_secs = 2;
    let mut s = LoopState::startup(&cfg);

    let out = s.cycle_step(&cfg, SensorPoll::Read(60_000), 2_000_000, false);
    assert_eq!(s.stats.count, 1);
    assert!(out.flush.is_none());

    // two seconds later the maximum age forces a flush
    let out = s.cycle_step(&cfg, SensorPoll::Read(60_000), 4_000_000, false);
    assert_eq!(s.stats.count, 2);
    let record = out.flush.expect("a flush is due");
    assert_eq!(record.samples, 2);
    assert_eq!(record.temp_avg, Some(60_000));

    // a failed write keeps the period, a successful one empties it
    s.flush_result(&cfg, false);
    assert_eq!(s.stats.count, 2);
    s.flush_result(&cfg, true);
    assert_eq!(s.stats.count, 0);
}

#[test]
fn pending_signal_forces_a_flush() {
    let mut cfg = loop_config();
    cfg.stat_enabled = true;
    let mut s = LoopState::startup(&cfg);
    s.cycle_step(&cfg, SensorPoll::Read(60_000), 2_000_000, false);
    let out = s.cycle_step(&cfg, SensorPoll::Read(60_000), 2_001_000, true);
    assert!(out.flush.is_some());
}
