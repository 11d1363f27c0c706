use sysmon::metrics::{counter_delta, percent_hundredths, rate_per_second, usage_level, UsageLevel};

#[test]
fn rate_is_zero_without_elapsed_time() {
    assert_eq!(rate_per_second(0, 0), 0);
    assert_eq!(rate_per_second(2_097_152, 0), 0);
    assert_eq!(rate_per_second(u64::MAX, 0), 0);
}

#[test]
fn rate_of_two_mebibytes_over_two_seconds() {
    let r = rate_per_second(2_097_152, 2000);
    assert_eq!(r, 1_048_576);
    assert_eq!(r as f64 / 1024.0 / 1024.0, 1.0);
}

#[test]
fn rate_rounds_down_and_saturates() {
    assert_eq!(rate_per_second(10, 3000), 3);
    assert_eq!(rate_per_second(u64::MAX, 1), u64::MAX);
}

#[test]
fn percentage_of_half() {
    assert_eq!(percent_hundredths(8_000_000_000, 16_000_000_000), 5000);
}

#[test]
fn percentage_guards_zero_whole_and_clamps() {
    assert_eq!(percent_hundredths(5, 0), 0);
    assert_eq!(percent_hundredths(20, 10), 10000);
    assert_eq!(percent_hundredths(1, 3), 3333);
}

#[test]
fn counter_delta_never_negative() {
    assert_eq!(counter_delta(100, 250), 150);
    assert_eq!(counter_delta(250, 100), 0);
}

#[test]
fn usage_levels_split_at_half_and_three_quarters() {
    assert_eq!(usage_level(4999), UsageLevel::Healthy);
    assert_eq!(usage_level(5000), UsageLevel::Moderate);
    assert_eq!(usage_level(7499), UsageLevel::Moderate);
    assert_eq!(usage_level(7500), UsageLevel::High);
}
