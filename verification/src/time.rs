//! The two value types, an absolute [`Time`] and a signed [`Duration`], both
//! counted in nanoseconds, with their conversions and saturating arithmetic.

use vstd::prelude::*;
use vstd::std_specs::ops::{AddSpec, NegSpec, SubSpec};

verus! {

/// A point in time: nanoseconds since the Unix epoch.
#[derive(Copy, Clone, Debug, PartialEq, Eq, Structural, Ord, Hash)]
pub struct Time(i64);

/// A signed duration, counted in nanoseconds.
#[derive(Copy, Clone, Debug, PartialEq, Eq, Structural, Ord, Hash)]
pub struct Duration(i64);

impl View for Time {
    type V = int;

    /// The number of nanoseconds since the epoch.
    open spec fn view(&self) -> int {
        self.nanos_since_epoch() as int
    }
}

impl View for Duration {
    type V = int;

    /// The number of nanoseconds.
    open spec fn view(&self) -> int {
        self.as_nanos() as int
    }
}

/// `n` brought into the range of a 64-bit count: what lies above the
/// largest count becomes the largest, what lies below the smallest the
/// smallest.
pub open spec fn saturated(n: int) -> int {
    if n > i64::MAX {
        i64::MAX as int
    } else if n < i64::MIN {
        i64::MIN as int
    } else {
        n
    }
}

/// The 64-bit count that differs from `n` by a multiple of 2^64.
pub open spec fn wrapped(n: int) -> int {
    let low = n % 0x1_0000_0000_0000_0000;
    if low > i64::MAX {
        low - 0x1_0000_0000_0000_0000
    } else {
        low
    }
}

/// The negation of a nanosecond count, kept representable: the most
/// negative 64-bit count, whose negation does not fit, gives the largest one.
pub open spec fn negated(nanos: int) -> int {
    if nanos <= i64::MIN {
        i64::MAX as int
    } else {
        -nanos
    }
}

/// The sum of two counts, saturated.
fn saturating_sum(a: i64, b: i64) -> (sum: i64)
    ensures
        sum == saturated(a + b),
{
    match a.checked_add(b) {
        Some(sum) => sum,
        None => if b > 0 {
            i64::MAX
        } else {
            i64::MIN
        },
    }
}

/// The difference of two counts, saturated.
fn saturating_difference(a: i64, b: i64) -> (difference: i64)
    ensures
        difference == saturated(a - b),
{
    match a.checked_sub(b) {
        Some(difference) => difference,
        None => if b > 0 {
            i64::MIN
        } else {
            i64::MAX
        },
    }
}

impl Time {
    /// The count of nanoseconds since the epoch, as contracts read it.
    pub closed spec fn spec_nanos_since_epoch(&self) -> i64 {
        self.0
    }

    /// The time with the given count, as contracts read it.
    pub closed spec fn spec_from_ns_since_epoch(ns_since_epoch: i64) -> Time {
        Time(ns_since_epoch)
    }

    /// The count of nanoseconds since the epoch.
    #[verifier::when_used_as_spec(spec_nanos_since_epoch)]
    pub fn nanos_since_epoch(&self) -> (nanos: i64)
        ensures
            nanos == self@,
    {
        self.0
    }

    /// The time `ns_since_epoch` nanoseconds after the epoch.
    #[verifier::when_used_as_spec(spec_from_ns_since_epoch)]
    pub fn from_ns_since_epoch(ns_since_epoch: i64) -> (time: Time)
        ensures
            time == Time::from_ns_since_epoch(ns_since_epoch),
            time@ == ns_since_epoch,
    {
        Time(ns_since_epoch)
    }

    /// The time `us_since_epoch` microseconds after the epoch. A count
    /// whose nanoseconds do not fit in 64 bits wraps around.
    pub fn from_us_since_epoch(us_since_epoch: i64) -> (time: Time)
        ensures
            time@ == wrapped(us_since_epoch * 1_000),
            i64::MIN <= us_since_epoch * 1_000 <= i64::MAX ==> time@ == us_since_epoch * 1_000,
    {
        Time(us_since_epoch.wrapping_mul(1_000))
    }

    /// A time is its count and nothing more: the time made from a count
    /// has that count, and the time made from the count of a time is that
    /// time again. So a time that is stored as its count alone comes back
    /// unchanged.
    pub proof fn lemma_count_round_trip(self, ns_since_epoch: i64)
        ensures
            Time::from_ns_since_epoch(ns_since_epoch).nanos_since_epoch() == ns_since_epoch,
            Time::from_ns_since_epoch(self.nanos_since_epoch()) == self,
    {
    }

    /// Two times with the same count are the same time.
    pub proof fn lemma_same_count(self, other: Time)
        requires
            self@ == other@,
        ensures
            self == other,
    {
    }
}

impl Duration {
    /// The count of nanoseconds, as contracts read it.
    pub closed spec fn spec_as_nanos(&self) -> i64 {
        self.0
    }

    /// The duration with the given count, as contracts read it.
    pub closed spec fn spec_from_nanos(nanos: i64) -> Duration {
        Duration(nanos)
    }

    /// The longest duration, as contracts read it.
    pub open spec fn spec_max_value() -> Duration {
        Duration::from_nanos(i64::MAX)
    }

    /// The longest duration; it also stands for "unbounded".
    #[verifier::when_used_as_spec(spec_max_value)]
    pub fn max_value() -> (d: Duration)
        ensures
            d == Duration::max_value(),
            d@ == i64::MAX,
    {
        Duration(i64::MAX)
    }

    /// The duration of `nanos` nanoseconds.
    #[verifier::when_used_as_spec(spec_from_nanos)]
    pub fn from_nanos(nanos: i64) -> (d: Duration)
        ensures
            d == Duration::from_nanos(nanos),
            d@ == nanos,
    {
        Duration(nanos)
    }

    /// The count of nanoseconds.
    #[verifier::when_used_as_spec(spec_as_nanos)]
    pub fn as_nanos(&self) -> (nanos: i64)
        ensures
            nanos == self@,
    {
        self.0
    }

    /// A duration is its count and nothing more: the duration made from a
    /// count has that count, and the duration made from the count of a
    /// duration is that duration again. So a duration that is stored as its
    /// count alone comes back unchanged.
    pub proof fn lemma_count_round_trip(self, nanos: i64)
        ensures
            Duration::from_nanos(nanos).as_nanos() == nanos,
            Duration::from_nanos(self.as_nanos()) == self,
    {
    }

    /// Two durations with the same count are the same duration.
    pub proof fn lemma_same_count(self, other: Duration)
        requires
            self@ == other@,
        ensures
            self == other,
    {
    }
}

impl vstd::std_specs::ops::NegSpecImpl for Duration {
    open spec fn obeys_neg_spec() -> bool {
        true
    }

    open spec fn neg_req(self) -> bool {
        true
    }

    open spec fn neg_spec(self) -> Duration {
        Duration::from_nanos(negated(self@) as i64)
    }
}

impl std::ops::Neg for Duration {
    type Output = Duration;

    /// The negated duration; the most negative one, which has no
    /// negation, gives the longest.
    fn neg(self) -> (d: Duration)
        ensures
            d@ == negated(self@),
    {
        if self.0 == i64::MIN {
            Duration(i64::MAX)
        } else {
            Duration(-self.0)
        }
    }
}

impl vstd::std_specs::ops::SubSpecImpl<Time> for Time {
    open spec fn obeys_sub_spec() -> bool {
        true
    }

    open spec fn sub_req(self, rhs: Time) -> bool {
        true
    }

    open spec fn sub_spec(self, rhs: Time) -> Duration {
        Duration::from_nanos(saturated(self@ - rhs@) as i64)
    }
}

impl std::ops::Sub<Time> for Time {
    type Output = Duration;

    /// The duration from `rhs` to `self`, saturated.
    fn sub(self, rhs: Time) -> (d: Duration)
        ensures
            d@ == saturated(self@ - rhs@),
    {
        Duration(saturating_difference(self.0, rhs.0))
    }
}

impl vstd::std_specs::ops::AddSpecImpl<Duration> for Time {
    open spec fn obeys_add_spec() -> bool {
        true
    }

    open spec fn add_req(self, rhs: Duration) -> bool {
        true
    }

    open spec fn add_spec(self, rhs: Duration) -> Time {
        Time::from_ns_since_epoch(saturated(self@ + rhs@) as i64)
    }
}

impl std::ops::Add<Duration> for Time {
    type Output = Time;

    /// The time `duration` after `self`, saturated.
    fn add(self, duration: Duration) -> (time: Time)
        ensures
            time@ == saturated(self@ + duration@),
    {
        Time(saturating_sum(self.0, duration.0))
    }
}

impl std::ops::AddAssign<Duration> for Time {
    /// Moves `self` by `duration`, saturated.
    fn add_assign(&mut self, duration: Duration)
        ensures
            *final(self) == old(self).add_spec(duration),
            final(self)@ == saturated(old(self)@ + duration@),
    {
        self.0 = saturating_sum(self.0, duration.0);
    }
}

/// What the three operations give, by counts: the difference of two times
/// and the sum of a time and a duration are saturated, and a negation is
/// kept representable.
pub proof fn lemma_arithmetic_counts(t: Time, u: Time, d: Duration)
    ensures
        t.sub_spec(u)@ == saturated(t@ - u@),
        t.add_spec(d)@ == saturated(t@ + d@),
        d.neg_spec()@ == negated(d@),
{
}

/// The difference of two times never leaves the 64-bit range: it is the
/// exact difference of the counts where that fits, and the nearest bound
/// where it does not.
pub proof fn lemma_sub_saturates(t: Time, u: Time)
    ensures
        i64::MIN <= t@ - u@ <= i64::MAX ==> t.sub_spec(u)@ == t@ - u@,
        t@ - u@ > i64::MAX ==> t.sub_spec(u)@ == i64::MAX,
        t@ - u@ < i64::MIN ==> t.sub_spec(u)@ == i64::MIN,
{
}

/// Moving a time by a duration and then by the negated duration leads
/// back to within one nanosecond of the start, unless the first move ran
/// into a bound. Then the first move stops at that bound, and the way back
/// starts from there: the result is short of the start by what was cut off,
/// and never on the far side of it.
pub proof fn lemma_add_then_take_back(t: Time, d: Duration)
    ensures
        ({
            let there = t.add_spec(d);
            let back = there.add_spec(d.neg_spec());
            &&& i64::MIN <= t@ + d@ <= i64::MAX ==> t@ - 1 <= back@ <= t@
            &&& i64::MIN <= t@ + d@ <= i64::MAX && d@ != i64::MIN ==> back == t
            &&& t@ + d@ > i64::MAX ==> there@ == i64::MAX && back@ == i64::MAX - d@ && back@ < t@
            &&& t@ + d@ < i64::MIN ==> there@ == i64::MIN && back@ == i64::MIN + negated(d@)
                && t@ <= back@
        }),
{
}

/// The duration between a time and the time reached from it by a duration
/// is that duration, unless the move ran into a bound. Then it is the part
/// of the duration that was left before the bound.
pub proof fn lemma_add_then_sub(t: Time, d: Duration)
    ensures
        ({
            let moved = t.add_spec(d).sub_spec(t);
            &&& i64::MIN <= t@ + d@ <= i64::MAX ==> moved == d
            &&& t@ + d@ > i64::MAX ==> moved@ == i64::MAX - t@ && 0 <= moved@ < d@
            &&& t@ + d@ < i64::MIN ==> moved@ == i64::MIN - t@ && d@ < moved@ <= 0
        }),
{
}

} // verus!
