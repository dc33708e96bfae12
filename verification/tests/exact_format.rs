use log_types::Duration;

fn exact(nanos: i64) -> String {
    Duration::from_nanos(nanos).exact_format()
}

#[test]
fn zero_is_written_as_zero_seconds() {
    assert_eq!(exact(0), "0s");
}

#[test]
fn all_four_units_with_a_fraction() {
    assert_eq!(exact(90_061_500_000_000), "1d 1h 1m 1.500s");
}

#[test]
fn negative_whole_seconds() {
    assert_eq!(exact(-5_000_000_000), "-5s");
}

#[test]
fn each_unit_alone() {
    assert_eq!(exact(1_000_000_000), "1s");
    assert_eq!(exact(60_000_000_000), "1m");
    assert_eq!(exact(3_600_000_000_000), "1h");
    assert_eq!(exact(86_400_000_000_000), "1d");
}

#[test]
fn units_of_zero_are_left_out() {
    assert_eq!(exact(86_401_000_000_000), "1d 1s");
    assert_eq!(exact(3_605_000_000_000), "1h 5s");
    assert_eq!(exact(90_000_000_000_000), "1d 1h");
    assert_eq!(exact(86_460_000_000_000), "1d 1m");
    assert_eq!(exact(7_260_000_000_000), "2h 1m");
}

#[test]
fn largest_counts_below_the_next_unit() {
    assert_eq!(exact(59_000_000_000), "59s");
    assert_eq!(exact(3_599_000_000_000), "59m 59s");
    assert_eq!(exact(86_399_000_000_000), "23h 59m 59s");
}

#[test]
fn fraction_is_cut_to_milliseconds() {
    assert_eq!(exact(1), "0.000s");
    assert_eq!(exact(999_999), "0.000s");
    assert_eq!(exact(1_000_000), "0.001s");
    assert_eq!(exact(1_999_999), "0.001s");
    assert_eq!(exact(59_999_999_999), "59.999s");
    assert_eq!(exact(1_500_000_000), "1.500s");
    assert_eq!(exact(1_050_000_000), "1.050s");
    assert_eq!(exact(1_005_000_000), "1.005s");
}

#[test]
fn fraction_after_larger_units_with_zero_seconds() {
    assert_eq!(exact(60_000_000_001), "1m 0.000s");
    assert_eq!(exact(86_400_250_000_000), "1d 0.250s");
}

#[test]
fn negative_with_all_units() {
    assert_eq!(exact(-90_061_500_000_000), "-1d 1h 1m 1.500s");
    assert_eq!(exact(-1), "-0.000s");
}

#[test]
fn many_days() {
    assert_eq!(exact(1_000 * 86_400_000_000_000), "1000d");
    assert_eq!(exact(12_345 * 86_400_000_000_000 + 7_000_000_000), "12345d 7s");
}

#[test]
fn extreme_counts() {
    assert_eq!(exact(i64::MAX), "106751d 23h 47m 16.854s");
    assert_eq!(exact(i64::MIN), "-106751d 23h 47m 16.854s");
    assert_eq!(exact(i64::MIN + 1), "-106751d 23h 47m 16.854s");
}
