//! The rendering of a time for people: a UTC date and time of day for a
//! count that plausibly is a date, and signed seconds for any other.

use vstd::prelude::*;
use crate::calendar::{
    date_time_pattern, date_time_shape, time_pattern, time_shape, utc_day, utc_format, utc_text,
    utc_today,
};
use crate::text::{
    decimal, has_shape, is_digit, lemma_decimal_digits, push_decimal, push_three_digits,
    three_digits,
};
use crate::time::Time;

verus! {

/// The quotient of `a` by `b`, rounded toward zero.
pub open spec fn quotient_toward_zero(a: int, b: int) -> int
    recommends
        b > 0,
{
    if a >= 0 {
        a / b
    } else {
        -((-a) / b)
    }
}

/// The whole years of 365 days that a count of nanoseconds covers: the
/// count divided in turn into seconds, minutes, hours, days and years, each
/// quotient rounded toward zero.
pub open spec fn years_since_epoch(nanos: int) -> int {
    quotient_toward_zero(
        quotient_toward_zero(
            quotient_toward_zero(
                quotient_toward_zero(quotient_toward_zero(nanos, 1_000_000_000), 60),
                60,
            ),
            24,
        ),
        365,
    )
}

/// Whether a count is taken for a date: it lies from 50 to 150 years after
/// the epoch. Any other count is taken for a time relative to some start.
pub open spec fn is_calendar_time(nanos: int) -> bool {
    50 <= years_since_epoch(nanos) <= 150
}

/// The text of a count taken for a date, under a pattern.
pub open spec fn calendar_text(nanos: int, pattern: Seq<char>) -> Seq<char> {
    utc_text(nanos / 1_000_000_000, nanos % 1_000_000_000, pattern)
}

/// The day number of the UTC date on which a count taken for a date falls
/// (1 January 1970 is day 719163).
pub open spec fn calendar_day(nanos: int) -> int {
    719_163 + nanos / 1_000_000_000 / 86_400
}

/// The text of a count taken for a relative time: the sign, always
/// written, and the seconds with three decimals, rounded to the nearest
/// millisecond and away from zero at a tie.
pub open spec fn relative_text(nanos: int) -> Seq<char> {
    let magnitude = if nanos < 0 {
        -nanos
    } else {
        nanos
    };
    let millis = (magnitude + 500_000) / 1_000_000;
    seq![if nanos < 0 { '-' } else { '+' }] + decimal((millis / 1_000) as nat) + seq!['.']
        + three_digits((millis % 1_000) as nat) + seq!['s']
}

/// The text of a count as read on the UTC day `today`: a date of today
/// shows its time of day alone, a date of another day the date as well, and
/// a count that is no date its seconds.
pub open spec fn display_text(nanos: int, today: int) -> Seq<char> {
    if is_calendar_time(nanos) {
        if calendar_day(nanos) == today {
            calendar_text(nanos, time_pattern())
        } else {
            calendar_text(nanos, date_time_pattern())
        }
    } else {
        relative_text(nanos)
    }
}

/// Whether `text` is a sign, one or more digits, a point, three digits and
/// the letter `s`.
pub open spec fn is_signed_seconds(text: Seq<char>) -> bool {
    let n = text.len() as int;
    &&& n >= 7
    &&& (text[0] == '+' || text[0] == '-')
    &&& forall|i: int| 1 <= i < n - 5 ==> is_digit(#[trigger] text[i])
    &&& text[n - 5] == '.'
    &&& forall|i: int| n - 4 <= i < n - 1 ==> is_digit(#[trigger] text[i])
    &&& text[n - 1] == 's'
}

/// The text of a relative time is always a sign, digits, a point, three
/// digits and the letter `s`.
pub proof fn lemma_relative_text_grammar(nanos: int)
    ensures
        is_signed_seconds(relative_text(nanos)),
{
    let magnitude = if nanos < 0 {
        -nanos
    } else {
        nanos
    };
    let millis = (magnitude + 500_000) / 1_000_000;
    let whole = decimal((millis / 1_000) as nat);
    let text = relative_text(nanos);
    lemma_decimal_digits((millis / 1_000) as nat);
    let n = text.len() as int;
    assert(n == whole.len() + 6);
    assert forall|i: int| 1 <= i < n - 5 implies is_digit(#[trigger] text[i]) by {
        assert(text[i] == whole[i - 1]);
    }
    assert forall|i: int| n - 4 <= i < n - 1 implies is_digit(#[trigger] text[i]) by {
        assert(text[i] == three_digits((millis % 1_000) as nat)[i - (n - 4)]);
    }
}

/// The counts taken for dates are those of one interval.
pub proof fn lemma_calendar_interval(nanos: int)
    ensures
        is_calendar_time(nanos) <==> 1_576_800_000_000_000_000 <= nanos
            < 4_761_936_000_000_000_000,
{
}

/// The signed seconds of a count, with three decimals.
fn format_relative(nanos: i64) -> (text: String)
    ensures
        text@ == relative_text(nanos as int),
{
    let mut out = String::new();
    let magnitude: u64 = if nanos < 0 {
        out.push('-');
        (-(nanos + 1)) as u64 + 1
    } else {
        out.push('+');
        nanos as u64
    };
    let millis: u64 = (magnitude + 500_000) / 1_000_000;
    push_decimal(&mut out, millis / 1_000);
    out.push('.');
    push_three_digits(&mut out, millis % 1_000);
    out.push('s');
    out
}

impl Time {
    /// Whether this time is taken for a date rather than for a time
    /// relative to some start.
    pub fn is_calendar_time(&self) -> (yes: bool)
        ensures
            yes == is_calendar_time(self@),
    {
        let nanos_since_epoch: i64 = self.nanos_since_epoch();
        let years_since_epoch: i64 = nanos_since_epoch / 1_000_000_000 / 60 / 60 / 24 / 365;
        50 <= years_since_epoch && years_since_epoch <= 150
    }

    /// Human-readable formatting, as read on the UTC day with the day
    /// number `today` (1 January 1970 is day 719163).
    pub fn format_on(&self, today: i32) -> (text: String)
        ensures
            text@ == display_text(self@, today as int),
            is_calendar_time(self@) ==> has_shape(
                text@,
                if calendar_day(self@) == today {
                    time_shape()
                } else {
                    date_time_shape()
                },
            ),
            !is_calendar_time(self@) ==> is_signed_seconds(text@),
    {
        let nanos_since_epoch: i64 = self.nanos_since_epoch();
        if self.is_calendar_time() {
            proof {
                lemma_calendar_interval(nanos_since_epoch as int);
            }
            let secs: i64 = nanos_since_epoch / 1_000_000_000;
            let nsecs: u32 = (nanos_since_epoch % 1_000_000_000) as u32;
            if utc_day(secs, nsecs) == today {
                utc_format(secs, nsecs, "%H:%M:%S%.6fZ")
            } else {
                utc_format(secs, nsecs, "%Y-%m-%d %H:%M:%S%.6fZ")
            }
        } else {
            proof {
                lemma_relative_text_grammar(nanos_since_epoch as int);
            }
            format_relative(nanos_since_epoch)
        }
    }

    /// Human-readable formatting, as read today: a date of today shows
    /// its time of day alone. Which day today is, the system clock tells.
    pub fn format(&self) -> (text: String)
        ensures
            !is_calendar_time(self@) ==> (text@ == relative_text(self@) && is_signed_seconds(
                text@,
            )),
            is_calendar_time(self@) ==> ((text@ == calendar_text(self@, time_pattern())
                && has_shape(text@, time_shape())) || (text@ == calendar_text(
                self@,
                date_time_pattern(),
            ) && has_shape(text@, date_time_shape()))),
    {
        if self.is_calendar_time() {
            self.format_on(utc_today())
        } else {
            proof {
                lemma_relative_text_grammar(self@);
            }
            format_relative(self.nanos_since_epoch())
        }
    }
}

} // verus!
