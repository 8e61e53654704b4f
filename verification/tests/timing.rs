use katapult::timing::{
    angle_delta_between, calculate_delay_based_on_rpm_and_target, phase_delay, TimingEstimator,
    MAGNET_POSITION_ANGLE, SERVO_PROJECTILE_RELEASE_TIME,
};

fn after(times: &[u64]) -> TimingEstimator {
    let mut estimator = TimingEstimator::new();
    for t in times {
        estimator.record_pulse(*t);
    }
    estimator
}

#[test]
fn no_pulse_no_speed() {
    let estimator = TimingEstimator::new();
    assert_eq!(estimator.rpm(), 0);
    assert_eq!(estimator.last_pulse_time(), None);
    assert_eq!(estimator.intervals(), Vec::<u64>::new());
}

#[test]
fn one_pulse_gives_no_speed() {
    let estimator = after(&[1234]);
    assert_eq!(estimator.rpm(), 0);
    assert_eq!(estimator.last_pulse_time(), Some(1234));
    assert_eq!(estimator.intervals(), Vec::<u64>::new());
}

#[test]
fn two_pulses_give_a_speed() {
    let estimator = after(&[1000, 1100]);
    assert_eq!(estimator.rpm(), 600);
    assert_eq!(estimator.intervals(), vec![100]);
}

#[test]
fn five_intervals_of_100_ms_give_600_rpm() {
    let estimator = after(&[0, 100, 200, 300, 400, 500]);
    assert_eq!(estimator.intervals(), vec![100, 100, 100, 100, 100]);
    assert_eq!(estimator.rpm(), 600);
}

#[test]
fn steady_pulses_settle_with_the_fifth_and_stay() {
    let mut estimator = TimingEstimator::new();
    for n in 0..5u64 {
        estimator.record_pulse(50 + 7 * n);
    }
    assert_eq!(estimator.rpm(), 60_000 / 7);
    for n in 5..40u64 {
        estimator.record_pulse(50 + 7 * n);
        assert_eq!(estimator.rpm(), 8571);
    }
}

#[test]
fn steady_pulses_flush_an_older_speed() {
    let mut estimator = after(&[0, 10, 500, 9000, 9001]);
    let last = 9001;
    for n in 1..=4u64 {
        estimator.record_pulse(last + 250 * n);
    }
    assert_ne!(estimator.rpm(), 240);
    estimator.record_pulse(last + 250 * 5);
    assert_eq!(estimator.intervals(), vec![250, 250, 250, 250, 250]);
    assert_eq!(estimator.rpm(), 240);
}

#[test]
fn window_keeps_the_newest_five() {
    let estimator = after(&[0, 10, 30, 60, 100, 150, 210]);
    assert_eq!(estimator.intervals(), vec![20, 30, 40, 50, 60]);
    // mean 40
    assert_eq!(estimator.rpm(), 1500);
}

#[test]
fn mean_rounds_down_before_the_division() {
    // 100 + 101 = 201, mean 100
    let estimator = after(&[0, 100, 201]);
    assert_eq!(estimator.rpm(), 600);
    // 1 + 2 = 3, mean 1
    let estimator = after(&[0, 1, 3]);
    assert_eq!(estimator.rpm(), 60_000);
}

#[test]
fn slow_rotation_rounds_to_zero() {
    let estimator = after(&[0, 60_001]);
    assert_eq!(estimator.rpm(), 0);
    let estimator = after(&[0, 60_000]);
    assert_eq!(estimator.rpm(), 1);
}

#[test]
fn repeated_time_stamp_is_discarded() {
    let mut estimator = after(&[0, 100]);
    estimator.record_pulse(100);
    assert_eq!(estimator.rpm(), 600);
    assert_eq!(estimator.intervals(), vec![100]);
    assert_eq!(estimator.last_pulse_time(), Some(100));
}

#[test]
fn earlier_time_stamp_is_discarded_but_remembered() {
    let mut estimator = after(&[0, 100]);
    estimator.record_pulse(40);
    assert_eq!(estimator.rpm(), 600);
    assert_eq!(estimator.intervals(), vec![100]);
    assert_eq!(estimator.last_pulse_time(), Some(40));
    estimator.record_pulse(90);
    assert_eq!(estimator.intervals(), vec![100, 50]);
    assert_eq!(estimator.rpm(), 800);
}

#[test]
fn longest_intervals_do_not_overflow() {
    let mut estimator = TimingEstimator::new();
    estimator.record_pulse(0);
    estimator.record_pulse(u64::MAX);
    assert_eq!(estimator.intervals(), vec![u64::MAX]);
    assert_eq!(estimator.rpm(), 0);
}

#[test]
fn angle_delta_is_the_forward_rotation() {
    assert_eq!(angle_delta_between(135, 45), 90);
    assert_eq!(angle_delta_between(45, 45), 0);
    assert_eq!(angle_delta_between(44, 45), 359);
    assert_eq!(angle_delta_between(0, 45), 315);
    assert_eq!(angle_delta_between(-45, 45), 270);
}

#[test]
fn angle_delta_wraps() {
    for offset in [-400, -45, 0, 45, 359, 360, 1000] {
        assert_eq!(angle_delta_between(offset - 10, offset), 350);
        assert_eq!(angle_delta_between(offset + 350, offset), 350);
    }
    assert_eq!(angle_delta_between(135 + 720, 45), 90);
    assert_eq!(angle_delta_between(135 - 720, 45), 90);
}

#[test]
fn angle_delta_at_the_ends_of_i32() {
    // -4294967295 = -11930465 * 360 + 105
    assert_eq!(angle_delta_between(i32::MIN, i32::MAX), 105);
    // 4294967295 = 11930464 * 360 + 255
    assert_eq!(angle_delta_between(i32::MAX, i32::MIN), 255);
}

#[test]
fn phase_delay_at_rest_is_zero() {
    assert_eq!(phase_delay(0, 45, 135, 0), 0);
    assert_eq!(phase_delay(0, 45, 44, 0), 0);
    assert_eq!(phase_delay(0, 0, -1, 150_000_000), 0);
}

#[test]
fn quarter_turn_at_600_rpm_takes_25_ms() {
    assert_eq!(phase_delay(600, 45, 135, 0), 25_000_000);
    assert_eq!(phase_delay(600, 45, 135, 10_000_000), 15_000_000);
    assert_eq!(phase_delay(600, 45, 135, 25_000_000), 0);
}

#[test]
fn latency_longer_than_the_travel_fires_at_once() {
    // 0.025 s of travel against 0.150 s of latency
    assert_eq!(phase_delay(600, 45, 135, 150_000_000), 0);
}

#[test]
fn phase_delay_rounds_down_to_the_nanosecond() {
    // 1 degree at 7 rpm: 1e9 / 42 = 23809523.8
    assert_eq!(phase_delay(7, 0, 1, 0), 23_809_523);
    assert_eq!(phase_delay(7, 0, 1, 23_809_523), 0);
    assert_eq!(phase_delay(7, 0, 1, 23_809_522), 1);
}

#[test]
fn phase_delay_at_the_slowest_speed() {
    // 359 degrees at 1 rpm: 359e9 / 6
    assert_eq!(phase_delay(1, 45, 44, 0), 59_833_333_333);
}

#[test]
fn phase_delay_at_enormous_speed_is_zero() {
    assert_eq!(phase_delay(u128::MAX, 45, 44, 0), 0);
    assert_eq!(phase_delay(60_000_000_001, 45, 44, 0), 0);
    assert_eq!(phase_delay(60_000_000_000, 45, 44, 0), 0);
    // 359e9 / (6 * 59e9) = 1.01
    assert_eq!(phase_delay(59_000_000_000, 45, 44, 0), 1);
}

#[test]
fn faster_arm_or_slower_release_never_waits_longer() {
    let mut before = u64::MAX;
    for rpm in [1u128, 2, 7, 60, 600, 6000] {
        let wait = phase_delay(rpm, 45, 135, 1_000_000);
        assert!(wait <= before);
        before = wait;
    }
    assert!(phase_delay(60, 45, 135, 5_000_000) <= phase_delay(60, 45, 135, 4_000_000));
    // a quarter turn at 60 rpm takes 250 ms
    assert_eq!(phase_delay(60, 45, 135, 4_000_000), 246_000_000);
}

#[test]
fn mechanism_constants() {
    assert_eq!(MAGNET_POSITION_ANGLE, 45);
    assert_eq!(SERVO_PROJECTILE_RELEASE_TIME, 150_000_000_000);
}

#[test]
fn release_time_of_the_mechanism_outlasts_every_turn() {
    for rpm in [0u128, 1, 2, 60, 600, 60_000] {
        for target in [-720, -1, 0, 44, 45, 46, 135, 404, i32::MAX, i32::MIN] {
            assert_eq!(calculate_delay_based_on_rpm_and_target(rpm, target), 0);
        }
    }
}
