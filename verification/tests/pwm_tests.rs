use fanctrl::pwm::pulse_times;

#[test]
fn half_duty_splits_the_period_evenly() {
    let p = pulse_times(500_000, 1_000);
    assert_eq!(p.active_micros, 500);
    assert_eq!(p.inactive_micros, 500);
}

#[test]
fn active_time_rounds_to_the_nearest_microsecond() {
    // 0.333333 of 1000 us is 333.333 us
    let p = pulse_times(333_333, 1_000);
    assert_eq!(p.active_micros, 333);
    assert_eq!(p.inactive_micros, 667);
    // 0.5 of 1001 us is 500.5 us, rounded up
    let p = pulse_times(500_000, 1_001);
    assert_eq!(p.active_micros, 501);
    assert_eq!(p.inactive_micros, 500);
}

#[test]
fn full_duty_asserts_the_whole_period() {
    let p = pulse_times(1_000_000, 1_000);
    assert_eq!(p.active_micros, 1_000);
    assert_eq!(p.inactive_micros, 0);
}

#[test]
fn zero_duty_never_asserts() {
    let p = pulse_times(0, 1_000);
    assert_eq!(p.active_micros, 0);
    assert_eq!(p.inactive_micros, 1_000);
}

#[test]
fn times_always_sum_to_the_period() {
    let mut duty: u64 = 0;
    while duty <= 1_000_000 {
        let p = pulse_times(duty, 997);
        assert_eq!(p.active_micros + p.inactive_micros, 997);
        duty += 61_803;
    }
}
