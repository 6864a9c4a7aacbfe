use fanctrl::config::ControlConfig;
use fanctrl::duty::map_duty;

fn test_config() -> ControlConfig {
    ControlConfig {
        off_temp: 45_000,
        min_temp: 50_000,
        max_temp: 70_000,
        min_duty: 200_000,
        max_duty: 1_000_000,
        period_micros: 1_000,
        temp_cycle: 1,
        factor_hot_old: 0,
        factor_hot_new: 1_000_000,
        factor_cold_old: 0,
        factor_cold_new: 1_000_000,
        min_dwell_micros: 0,
        error_interval_micros: 60_000_000,
        stat_enabled: false,
        stat_cycle: 1,
        stat_min_secs: 60,
        stat_max_secs: 3_600,
        stat_delta_t: 5_000,
    }
}

#[test]
fn below_min_temp_gives_min_duty() {
    let cfg = test_config();
    assert_eq!(map_duty(&cfg, 20_000), 200_000);
    assert_eq!(map_duty(&cfg, 49_999), 200_000);
    assert_eq!(map_duty(&cfg, 50_000), 200_000);
    assert_eq!(map_duty(&cfg, -30_000), 200_000);
}

#[test]
fn above_max_temp_gives_max_duty() {
    let cfg = test_config();
    assert_eq!(map_duty(&cfg, 70_000), 1_000_000);
    assert_eq!(map_duty(&cfg, 70_001), 1_000_000);
    assert_eq!(map_duty(&cfg, 95_000), 1_000_000);
}

#[test]
fn linear_interpolation_is_exact() {
    let cfg = test_config();
    // a quarter of the way through [50, 70] degrees: 0.2 + 0.25 * 0.8 = 0.4
    assert_eq!(map_duty(&cfg, 55_000), 400_000);
    // halfway: 0.2 + 0.5 * 0.8 = 0.6
    assert_eq!(map_duty(&cfg, 60_000), 600_000);
    // three quarters: 0.8
    assert_eq!(map_duty(&cfg, 65_000), 800_000);
}

#[test]
fn degenerate_duty_span_is_constant_inside_ramp() {
    let mut cfg = test_config();
    cfg.min_duty = 500_000;
    cfg.max_duty = 500_000;
    assert_eq!(map_duty(&cfg, 40_000), 500_000);
    assert_eq!(map_duty(&cfg, 60_000), 500_000);
    assert_eq!(map_duty(&cfg, 80_000), 500_000);
}

#[test]
fn duty_is_monotone_in_temperature() {
    let cfg = test_config();
    let mut prev = map_duty(&cfg, 40_000);
    let mut t: i64 = 40_500;
    while t <= 80_000 {
        let d = map_duty(&cfg, t);
        assert!(d >= prev);
        prev = d;
        t += 500;
    }
}
