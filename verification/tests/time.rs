use stellwerksim::time::{latency_corrected_time, TimeOfDay};

fn t(seconds: u32, nanos: u32) -> TimeOfDay {
    TimeOfDay { seconds, nanos }
}

#[test]
fn half_the_round_trip_is_added() {
    assert_eq!(latency_corrected_time(t(3600, 0), -2_000_000_000), t(3601, 0));
    assert_eq!(latency_corrected_time(t(3600, 0), 0), t(3600, 0));
}

#[test]
fn halving_rounds_down() {
    assert_eq!(latency_corrected_time(t(10, 10), -3), t(10, 12));
    assert_eq!(latency_corrected_time(t(10, 10), 3), t(10, 9));
    assert_eq!(latency_corrected_time(t(10, 10), -1), t(10, 11));
    assert_eq!(latency_corrected_time(t(10, 0), -1_000_000_001), t(10, 500_000_001));
}

#[test]
fn correction_wraps_around_midnight() {
    assert_eq!(latency_corrected_time(t(86_399, 500_000_000), -2_000_000_000), t(0, 500_000_000));
    assert_eq!(latency_corrected_time(t(0, 0), 2), t(86_399, 999_999_999));
}

#[test]
fn leap_second_moves_within_itself() {
    assert_eq!(latency_corrected_time(t(59, 1_500_000_000), -2), t(59, 1_500_000_001));
    assert_eq!(latency_corrected_time(t(59, 1_500_000_000), 2), t(59, 1_499_999_999));
}

#[test]
fn leap_second_left_forward_counts_as_the_second_before() {
    assert_eq!(latency_corrected_time(t(59, 1_500_000_000), -2_000_000_000), t(60, 500_000_000));
    assert_eq!(latency_corrected_time(t(59, 1_500_000_000), -1_200_000_000), t(60, 100_000_000));
}

#[test]
fn leap_second_left_backward_counts_as_the_second_after() {
    assert_eq!(latency_corrected_time(t(59, 1_500_000_000), 2_000_000_000), t(59, 500_000_000));
}
