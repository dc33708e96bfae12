use log_types::{Duration, Time};

fn time(nanos: i64) -> Time {
    Time::from_ns_since_epoch(nanos)
}

fn span(nanos: i64) -> Duration {
    Duration::from_nanos(nanos)
}

#[test]
fn constructors_keep_the_count() {
    assert_eq!(time(0).nanos_since_epoch(), 0);
    assert_eq!(time(-17).nanos_since_epoch(), -17);
    assert_eq!(time(i64::MAX).nanos_since_epoch(), i64::MAX);
    assert_eq!(time(i64::MIN).nanos_since_epoch(), i64::MIN);
    assert_eq!(span(42).as_nanos(), 42);
    assert_eq!(span(i64::MIN).as_nanos(), i64::MIN);
}

#[test]
fn microseconds_are_multiplied_by_a_thousand() {
    assert_eq!(Time::from_us_since_epoch(0).nanos_since_epoch(), 0);
    assert_eq!(Time::from_us_since_epoch(5).nanos_since_epoch(), 5_000);
    assert_eq!(Time::from_us_since_epoch(-7).nanos_since_epoch(), -7_000);
    assert_eq!(
        Time::from_us_since_epoch(9_223_372_036_854_775).nanos_since_epoch(),
        9_223_372_036_854_775_000
    );
}

#[test]
fn microseconds_beyond_the_range_wrap() {
    assert_eq!(Time::from_us_since_epoch(i64::MAX).nanos_since_epoch(), -1_000);
    assert_eq!(Time::from_us_since_epoch(i64::MIN).nanos_since_epoch(), 0);
    assert_eq!(
        Time::from_us_since_epoch(1_234_567_890_123_456_789).nanos_since_epoch(),
        -1_363_962_815_083_169_272
    );
}

#[test]
fn longest_duration_is_the_largest_count() {
    assert_eq!(Duration::max_value().as_nanos(), i64::MAX);
    assert_eq!(Duration::max_value(), span(i64::MAX));
}

#[test]
fn negation_of_the_most_negative_is_the_longest() {
    assert_eq!(-span(i64::MIN), Duration::max_value());
    assert_eq!((-span(i64::MIN)).as_nanos(), i64::MAX);
}

#[test]
fn negation_of_other_counts_is_exact() {
    assert_eq!((-span(0)).as_nanos(), 0);
    assert_eq!((-span(5)).as_nanos(), -5);
    assert_eq!((-span(-5)).as_nanos(), 5);
    assert_eq!((-span(i64::MAX)).as_nanos(), i64::MIN + 1);
    assert_eq!((-span(i64::MIN + 1)).as_nanos(), i64::MAX);
}

#[test]
fn difference_of_times_is_a_duration() {
    assert_eq!(time(10) - time(3), span(7));
    assert_eq!(time(i64::MIN) - time(i64::MAX), span(i64::MIN));
    assert_eq!(time(10) + span(-3), time(7));
}

#[test]
fn difference_of_times() {
    assert_eq!((time(10) - time(3)).as_nanos(), 7);
    assert_eq!((time(3) - time(10)).as_nanos(), -7);
    assert_eq!((time(-3) - time(-10)).as_nanos(), 7);
    assert_eq!((time(5) - time(5)).as_nanos(), 0);
}

#[test]
fn difference_saturates_at_both_bounds() {
    assert_eq!((time(i64::MAX) - time(i64::MIN)).as_nanos(), i64::MAX);
    assert_eq!((time(i64::MIN) - time(i64::MAX)).as_nanos(), i64::MIN);
    assert_eq!((time(i64::MAX) - time(-1)).as_nanos(), i64::MAX);
    assert_eq!((time(i64::MIN) - time(1)).as_nanos(), i64::MIN);
    assert_eq!((time(0) - time(i64::MIN)).as_nanos(), i64::MAX);
    assert_eq!((time(-1) - time(i64::MIN)).as_nanos(), i64::MAX);
    assert_eq!((time(i64::MAX) - time(0)).as_nanos(), i64::MAX);
    assert_eq!((time(i64::MIN) - time(0)).as_nanos(), i64::MIN);
}

#[test]
fn sum_of_time_and_duration() {
    assert_eq!((time(10) + span(5)).nanos_since_epoch(), 15);
    assert_eq!((time(10) + span(-25)).nanos_since_epoch(), -15);
    assert_eq!((time(i64::MAX) + span(i64::MIN)).nanos_since_epoch(), -1);
}

#[test]
fn sum_saturates_at_both_bounds() {
    assert_eq!((time(i64::MAX) + span(1)).nanos_since_epoch(), i64::MAX);
    assert_eq!((time(i64::MAX - 1) + span(1)).nanos_since_epoch(), i64::MAX);
    assert_eq!((time(1) + Duration::max_value()).nanos_since_epoch(), i64::MAX);
    assert_eq!((time(i64::MIN) + span(-1)).nanos_since_epoch(), i64::MIN);
    assert_eq!((time(-1) + span(i64::MIN)).nanos_since_epoch(), i64::MIN);
}

#[test]
fn add_assign_moves_in_place() {
    let mut t = time(100);
    t += span(23);
    assert_eq!(t.nanos_since_epoch(), 123);
    t += span(-200);
    assert_eq!(t.nanos_since_epoch(), -77);
    t += span(i64::MIN);
    assert_eq!(t.nanos_since_epoch(), i64::MIN);
    t += Duration::max_value();
    assert_eq!(t.nanos_since_epoch(), -1);
    t += Duration::max_value();
    t += span(2);
    assert_eq!(t.nanos_since_epoch(), i64::MAX);
}

#[test]
fn there_and_back_returns_to_the_start() {
    for &(t, d) in &[(0i64, 0i64), (5, 7), (5, -7), (-5, 7), (i64::MAX, -3), (i64::MIN, 3)] {
        let back = time(t) + span(d) + (-span(d));
        assert_eq!(back.nanos_since_epoch(), t);
    }
}

#[test]
fn there_and_back_with_the_most_negative_duration_is_one_short() {
    let back = time(10) + span(i64::MIN) + (-span(i64::MIN));
    assert_eq!(back.nanos_since_epoch(), 9);
}

#[test]
fn there_and_back_across_a_bound_is_cut_off() {
    let back = time(i64::MAX - 2) + span(10) + (-span(10));
    assert_eq!(back.nanos_since_epoch(), i64::MAX - 10);
    let back = time(i64::MIN + 2) + span(-10) + (-span(-10));
    assert_eq!(back.nanos_since_epoch(), i64::MIN + 10);
    let back = time(-5) + span(i64::MIN) + (-span(i64::MIN));
    assert_eq!(back.nanos_since_epoch(), -1);
}

#[test]
fn distance_moved_is_the_duration_unless_cut_off() {
    assert_eq!(((time(7) + span(100)) - time(7)).as_nanos(), 100);
    assert_eq!(((time(7) + span(-100)) - time(7)).as_nanos(), -100);
    assert_eq!(((time(i64::MAX - 2) + span(10)) - time(i64::MAX - 2)).as_nanos(), 2);
    assert_eq!(((time(i64::MIN + 2) + span(-10)) - time(i64::MIN + 2)).as_nanos(), -2);
}

#[test]
fn count_round_trip() {
    for &n in &[0i64, 1, -1, 1_666_915_200_123_456_789, i64::MAX, i64::MIN] {
        assert_eq!(Time::from_ns_since_epoch(time(n).nanos_since_epoch()), time(n));
        assert_eq!(Duration::from_nanos(span(n).as_nanos()), span(n));
    }
}
