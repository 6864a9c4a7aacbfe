use fanctrl::config::ControlConfig;
use fanctrl::fan::{FanState, fan_step};

fn dwell_config() -> ControlConfig {
    ControlConfig {
        off_temp: 45_000,
        min_temp: 50_000,
        max_temp: 70_000,
        min_duty: 200_000,
        max_duty: 1_000_000,
        period_micros: 1_000,
        temp_cycle: 1,
        factor_hot_old: 0,
        factor_hot_new: 1_000_000,
        factor_cold_old: 0,
        factor_cold_new: 1_000_000,
        min_dwell_micros: 2_000_000,
        error_interval_micros: 60_000_000,
        stat_enabled: false,
        stat_cycle: 1,
        stat_min_secs: 60,
        stat_max_secs: 3_600,
        stat_delta_t: 5_000,
    }
}

#[test]
fn startup_is_on_with_no_flip_recorded() {
    let s = FanState::startup();
    assert!(s.on);
    assert_eq!(s.last_change, None);
}

#[test]
fn off_fan_stays_off_at_or_below_min_temp() {
    let cfg = dwell_config();
    let mut s = FanState { on: false, last_change: Some(0) };
    fan_step(&mut s, &cfg, 50_000, 10_000_000);
    assert!(!s.on);
    assert_eq!(s.last_change, Some(0));
}

#[test]
fn on_fan_stays_on_above_off_temp() {
    let cfg = dwell_config();
    let mut s = FanState { on: true, last_change: Some(0) };
    fan_step(&mut s, &cfg, 45_001, 10_000_000);
    assert!(s.on);
    assert_eq!(s.last_change, Some(0));
}

#[test]
fn on_fan_turns_off_after_dwell() {
    let cfg = dwell_config();
    let mut s = FanState { on: true, last_change: Some(0) };
    fan_step(&mut s, &cfg, 45_000, 2_000_000);
    assert!(!s.on);
    assert_eq!(s.last_change, Some(2_000_000));
}

#[test]
fn on_fan_is_debounced_below_dwell() {
    let cfg = dwell_config();
    let mut s = FanState { on: true, last_change: Some(0) };
    fan_step(&mut s, &cfg, 45_000, 1_999_999);
    assert!(s.on);
    assert_eq!(s.last_change, Some(0));
}

#[test]
fn off_fan_turns_on_after_dwell() {
    let cfg = dwell_config();
    let mut s = FanState { on: false, last_change: Some(0) };
    fan_step(&mut s, &cfg, 50_001, 2_000_000);
    assert!(s.on);
    assert_eq!(s.last_change, Some(2_000_000));
}

#[test]
fn off_fan_is_debounced_below_dwell() {
    let cfg = dwell_config();
    let mut s = FanState { on: false, last_change: Some(0) };
    fan_step(&mut s, &cfg, 60_000, 1_000_000);
    assert!(!s.on);
    assert_eq!(s.last_change, Some(0));
}

#[test]
fn first_flip_is_unconstrained_by_dwell() {
    let cfg = dwell_config();
    let mut s = FanState::startup();
    // fan on, temperature cold, no flip recorded yet: turns off at once
    fan_step(&mut s, &cfg, 40_000, 5);
    assert!(!s.on);
    assert_eq!(s.last_change, Some(5));
}

#[test]
fn flips_never_come_closer_than_the_dwell() {
    let cfg = dwell_config();
    let mut s = FanState::startup();
    // alternate hot and cold every half dwell; record the flip times
    let mut flips: Vec<u64> = Vec::new();
    let mut now: u64 = 1_000_000;
    for k in 0..20u64 {
        let temp = if k % 2 == 0 { 40_000 } else { 60_000 };
        let was_on = s.on;
        fan_step(&mut s, &cfg, temp, now);
        if s.on != was_on {
            flips.push(now);
        }
        now += 1_000_000;
    }
    for pair in flips.windows(2) {
        assert!(pair[1] - pair[0] >= cfg.min_dwell_micros);
    }
}
