use fanctrl::config::{ControlConfig, RawSettings};

fn plain_raw() -> RawSettings {
    RawSettings {
        off_temp: 45_000,
        min_temp: 50_000,
        max_temp: 70_000,
        min_duty: 200_000,
        max_duty: 1_000_000,
        pwm_freq: 1_000,
        temp_freq: 10,
        delay_hot_ms: 1_000,
        delay_cold_ms: 10_000,
        dwell_ms: 2_000,
        error_secs: 60,
        stat_enabled: true,
        stat_freq: 10,
        stat_min_secs: 60,
        stat_max_secs: 3_600,
        stat_delta_t: 5_000,
    }
}

#[test]
fn defaults_normalize_unchanged() {
    let cfg = ControlConfig::normalize(&plain_raw());
    assert_eq!(cfg.off_temp, 45_000);
    assert_eq!(cfg.min_temp, 50_000);
    assert_eq!(cfg.max_temp, 70_000);
    assert_eq!(cfg.min_duty, 200_000);
    assert_eq!(cfg.max_duty, 1_000_000);
    assert_eq!(cfg.period_micros, 1_000);
    assert_eq!(cfg.temp_cycle, 100);
    assert_eq!(cfg.stat_cycle, 100);
    assert_eq!(cfg.min_dwell_micros, 2_000_000);
    assert_eq!(cfg.error_interval_micros, 60_000_000);
    assert_eq!(cfg.stat_min_secs, 60);
    assert_eq!(cfg.stat_max_secs, 3_600);
    assert_eq!(cfg.stat_delta_t, 5_000);
    assert!(cfg.stat_enabled);
}

#[test]
fn temperature_thresholds_are_ordered() {
    let mut raw = plain_raw();
    raw.off_temp = 60_000;
    raw.min_temp = 50_000;
    raw.max_temp = 40_000;
    let cfg = ControlConfig::normalize(&raw);
    assert_eq!(cfg.off_temp, 60_000);
    assert_eq!(cfg.min_temp, 60_000);
    assert_eq!(cfg.max_temp, 60_000);
}

#[test]
fn duty_bounds_are_clamped_and_ordered() {
    let mut raw = plain_raw();
    raw.min_duty = 3_000_000;
    raw.max_duty = 100_000;
    let cfg = ControlConfig::normalize(&raw);
    assert_eq!(cfg.min_duty, 1_000_000);
    assert_eq!(cfg.max_duty, 1_000_000);
}

#[test]
fn period_follows_the_pwm_frequency() {
    let mut raw = plain_raw();
    raw.pwm_freq = 250;
    let cfg = ControlConfig::normalize(&raw);
    assert_eq!(cfg.period_micros, 4_000);
    // out-of-range frequencies are clamped before the division
    raw.pwm_freq = 0;
    assert_eq!(ControlConfig::normalize(&raw).period_micros, 1_000_000);
    raw.pwm_freq = 5_000_000;
    assert_eq!(ControlConfig::normalize(&raw).period_micros, 1);
}

#[test]
fn sampling_frequency_falls_back_to_a_divisor() {
    let mut raw = plain_raw();
    // 3 does not divide 1000; the largest divisor at most 3 is 2
    raw.temp_freq = 3;
    let cfg = ControlConfig::normalize(&raw);
    assert_eq!(cfg.temp_cycle, 500);
    // 0 means sampling every cycle
    raw.temp_freq = 0;
    assert_eq!(ControlConfig::normalize(&raw).temp_cycle, 1);
}

#[test]
fn dampening_factors_follow_their_delays() {
    let raw = plain_raw();
    let cfg = ControlConfig::normalize(&raw);
    // one second at 10 samples per second: a tenth of the new reading
    assert_eq!(cfg.factor_hot_new, 100_000);
    assert_eq!(cfg.factor_hot_old, 900_000);
    // ten seconds: a hundredth
    assert_eq!(cfg.factor_cold_new, 10_000);
    assert_eq!(cfg.factor_cold_old, 990_000);
}

#[test]
fn short_delays_disable_smoothing() {
    let mut raw = plain_raw();
    // 50 ms at 10 samples per second is below one sample period
    raw.delay_hot_ms = 50;
    let cfg = ControlConfig::normalize(&raw);
    assert_eq!(cfg.factor_hot_new, 1_000_000);
    assert_eq!(cfg.factor_hot_old, 0);
}

#[test]
fn statistics_intervals_are_ordered() {
    let mut raw = plain_raw();
    raw.stat_min_secs = 100;
    raw.stat_max_secs = 10;
    let cfg = ControlConfig::normalize(&raw);
    assert_eq!(cfg.stat_min_secs, 100);
    assert_eq!(cfg.stat_max_secs, 100);
}
