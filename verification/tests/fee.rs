use parking_system::fee::{calculate_fee, RATE_PER_HOUR, SECONDS_PER_HOUR};

#[test]
fn fee_of_no_time_is_zero() {
    assert_eq!(calculate_fee(0), 0);
}

#[test]
fn fee_of_one_second_is_one() {
    assert_eq!(calculate_fee(1), 1);
}

#[test]
fn fee_of_one_hour_is_the_hourly_rate() {
    assert_eq!(calculate_fee(3600), 5);
    assert_eq!(calculate_fee(SECONDS_PER_HOUR), RATE_PER_HOUR);
}

#[test]
fn fee_of_a_second_past_the_hour_is_rounded_up() {
    assert_eq!(calculate_fee(3601), 6);
}

#[test]
fn fee_of_two_hours_is_ten() {
    assert_eq!(calculate_fee(7200), 10);
}

#[test]
fn fee_steps_up_every_twelve_minutes() {
    assert_eq!(calculate_fee(719), 1);
    assert_eq!(calculate_fee(720), 1);
    assert_eq!(calculate_fee(721), 2);
    assert_eq!(calculate_fee(1440), 2);
    assert_eq!(calculate_fee(1441), 3);
}

#[test]
fn fee_never_decreases_with_duration() {
    let mut previous = calculate_fee(0);
    for duration in 1..=20_000u64 {
        let fee = calculate_fee(duration);
        assert!(fee >= previous);
        previous = fee;
    }
    assert!(calculate_fee(u64::MAX) >= calculate_fee(u64::MAX - 1));
}

#[test]
fn fee_agrees_with_the_rate_applied_to_fractional_hours() {
    for duration in 0..=200_000u64 {
        let expected = (duration as f64 / 3600.0 * 5.0).ceil() as u64;
        assert_eq!(calculate_fee(duration), expected);
    }
}

#[test]
fn fee_of_the_longest_stay_does_not_overflow() {
    assert_eq!(calculate_fee(u64::MAX), 25_620_477_880_152_156);
    assert_eq!(calculate_fee(u64::MAX - 15), 25_620_477_880_152_155);
}
