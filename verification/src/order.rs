//! The order of times and of durations: that of their nanosecond counts.

use std::cmp::Ordering;
use vstd::prelude::*;
use vstd::std_specs::cmp::PartialOrdSpec;
use crate::time::{Duration, Time};

verus! {

/// How two counts compare.
pub open spec fn compare_counts(a: int, b: int) -> Ordering {
    if a < b {
        Ordering::Less
    } else if a > b {
        Ordering::Greater
    } else {
        Ordering::Equal
    }
}

impl PartialOrd for Time {
    fn partial_cmp(&self, other: &Time) -> (o: Option<Ordering>) {
        let a: i64 = self.nanos_since_epoch();
        let b: i64 = other.nanos_since_epoch();
        if a < b {
            Some(Ordering::Less)
        } else if a > b {
            Some(Ordering::Greater)
        } else {
            Some(Ordering::Equal)
        }
    }
}

impl vstd::std_specs::cmp::PartialOrdSpecImpl for Time {
    open spec fn obeys_partial_cmp_spec() -> bool {
        true
    }

    open spec fn partial_cmp_spec(&self, other: &Time) -> Option<Ordering> {
        Some(compare_counts(self@, other@))
    }
}

impl PartialOrd for Duration {
    fn partial_cmp(&self, other: &Duration) -> (o: Option<Ordering>) {
        let a: i64 = self.as_nanos();
        let b: i64 = other.as_nanos();
        if a < b {
            Some(Ordering::Less)
        } else if a > b {
            Some(Ordering::Greater)
        } else {
            Some(Ordering::Equal)
        }
    }
}

impl vstd::std_specs::cmp::PartialOrdSpecImpl for Duration {
    open spec fn obeys_partial_cmp_spec() -> bool {
        true
    }

    open spec fn partial_cmp_spec(&self, other: &Duration) -> Option<Ordering> {
        Some(compare_counts(self@, other@))
    }
}

/// The order of times is the order of their counts, and a total one: of
/// two times exactly one is smaller, or they are the same time; the order
/// passes on from one pair to the next; and it is the same before and after
/// the times are stored as their counts and made from them again.
pub proof fn lemma_time_order(a: Time, b: Time, c: Time)
    ensures
        a.partial_cmp_spec(&b) == Some(compare_counts(a@, b@)),
        a.partial_cmp_spec(&b) == Some(Ordering::Equal) <==> a == b,
        a.partial_cmp_spec(&b) == Some(Ordering::Less) <==> b.partial_cmp_spec(&a) == Some(
            Ordering::Greater,
        ),
        a.partial_cmp_spec(&b) == Some(Ordering::Less) && b.partial_cmp_spec(&c) == Some(
            Ordering::Less,
        ) ==> a.partial_cmp_spec(&c) == Some(Ordering::Less),
        Time::from_ns_since_epoch(a.nanos_since_epoch()).partial_cmp_spec(
            &Time::from_ns_since_epoch(b.nanos_since_epoch()),
        ) == a.partial_cmp_spec(&b),
{
    a.lemma_count_round_trip(0);
    b.lemma_count_round_trip(0);
    if a@ == b@ {
        a.lemma_same_count(b);
    }
}

/// The order of durations is the order of their counts, and a total one:
/// of two durations exactly one is smaller, or they are the same duration;
/// the order passes on from one pair to the next; and it is the same before
/// and after the durations are stored as their counts and made from them
/// again.
pub proof fn lemma_duration_order(a: Duration, b: Duration, c: Duration)
    ensures
        a.partial_cmp_spec(&b) == Some(compare_counts(a@, b@)),
        a.partial_cmp_spec(&b) == Some(Ordering::Equal) <==> a == b,
        a.partial_cmp_spec(&b) == Some(Ordering::Less) <==> b.partial_cmp_spec(&a) == Some(
            Ordering::Greater,
        ),
        a.partial_cmp_spec(&b) == Some(Ordering::Less) && b.partial_cmp_spec(&c) == Some(
            Ordering::Less,
        ) ==> a.partial_cmp_spec(&c) == Some(Ordering::Less),
        Duration::from_nanos(a.as_nanos()).partial_cmp_spec(&Duration::from_nanos(b.as_nanos()))
            == a.partial_cmp_spec(&b),
{
    a.lemma_count_round_trip(0);
    b.lemma_count_round_trip(0);
    if a@ == b@ {
        a.lemma_same_count(b);
    }
}

} // verus!
