use fanctrl::config::ControlConfig;
use fanctrl::filter::filter_step;

fn damped_config() -> ControlConfig {
    ControlConfig {
        off_temp: 45_000,
        min_temp: 50_000,
        max_temp: 70_000,
        min_duty: 200_000,
        max_duty: 1_000_000,
        period_micros: 1_000,
        temp_cycle: 1,
        // rising: one tenth of the new reading per step
        factor_hot_old: 900_000,
        factor_hot_new: 100_000,
        // falling: one fiftieth of the new reading per step
        factor_cold_old: 980_000,
        factor_cold_new: 20_000,
        min_dwell_micros: 0,
        error_interval_micros: 60_000_000,
        stat_enabled: false,
        stat_cycle: 1,
        stat_min_secs: 60,
        stat_max_secs: 3_600,
        stat_delta_t: 5_000,
    }
}

#[test]
fn first_reading_passes_through() {
    let cfg = damped_config();
    assert_eq!(filter_step(&cfg, None, Some(48_310)), Some(48_310));
}

#[test]
fn no_reading_and_no_history_stays_absent() {
    let cfg = damped_config();
    assert_eq!(filter_step(&cfg, None, None), None);
}

#[test]
fn no_reading_carries_the_previous_value() {
    let cfg = damped_config();
    assert_eq!(filter_step(&cfg, Some(51_000), None), Some(51_000));
}

#[test]
fn equal_reading_is_not_blended() {
    let cfg = damped_config();
    assert_eq!(filter_step(&cfg, Some(51_000), Some(51_000)), Some(51_000));
}

#[test]
fn rising_temperature_uses_hot_factors() {
    let cfg = damped_config();
    // 52000 * 0.1 + 50000 * 0.9 = 50200
    assert_eq!(filter_step(&cfg, Some(50_000), Some(52_000)), Some(50_200));
}

#[test]
fn falling_temperature_uses_cold_factors() {
    let cfg = damped_config();
    // 48000 * 0.02 + 50000 * 0.98 = 49960
    assert_eq!(filter_step(&cfg, Some(50_000), Some(48_000)), Some(49_960));
}

#[test]
fn blend_rounds_to_nearest_millidegree() {
    let cfg = damped_config();
    // 50005 * 0.1 + 50000 * 0.9 = 50000.5, rounded away from zero
    assert_eq!(filter_step(&cfg, Some(50_000), Some(50_005)), Some(50_001));
}
