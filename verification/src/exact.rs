//! The exact rendering of a duration in days, hours, minutes and seconds.

use vstd::prelude::*;
use crate::text::{decimal, push_decimal, push_three_digits, three_digits};
use crate::time::{negated, Duration};

verus! {

pub const NANOS_PER_SEC: i64 = 1_000_000_000;

pub const NANOS_PER_MILLI: i64 = 1_000_000;

pub const SEC_PER_MINUTE: i64 = 60;

pub const SEC_PER_HOUR: i64 = 60 * SEC_PER_MINUTE;

pub const SEC_PER_DAY: i64 = 24 * SEC_PER_HOUR;

/// The token of one unit in an exact rendering: the count followed by the
/// unit's letter, and no token at all for a count of zero.
pub open spec fn unit_tokens(count: nat, unit: char) -> Seq<Seq<char>> {
    if count > 0 {
        seq![decimal(count).push(unit)]
    } else {
        seq![]
    }
}

/// The seconds token of an exact rendering: whole seconds alone when there
/// is no fraction, and otherwise the fraction cut to whole milliseconds and
/// written with three digits.
pub open spec fn seconds_token(secs: nat, sub_nanos: nat) -> Seq<char> {
    if sub_nanos == 0 {
        decimal(secs).push('s')
    } else {
        decimal(secs) + seq!['.'] + three_digits(sub_nanos / 1_000_000) + seq!['s']
    }
}

/// The tokens of the exact rendering of a non-negative nanosecond count:
/// days, hours, minutes, each only when not zero, and then the seconds,
/// which are left out only when they are zero and another token stands.
pub open spec fn exact_tokens(total_nanos: nat) -> Seq<Seq<char>> {
    let secs = total_nanos / 1_000_000_000;
    let sub_nanos = total_nanos % 1_000_000_000;
    let larger = unit_tokens(secs / 86_400, 'd') + unit_tokens(secs / 3_600 % 24, 'h')
        + unit_tokens(secs / 60 % 60, 'm');
    if secs % 60 > 0 || sub_nanos > 0 || larger.len() == 0 {
        larger.push(seconds_token(secs % 60, sub_nanos))
    } else {
        larger
    }
}

/// The tokens written one after another with a single space between
/// neighbours.
pub open spec fn spaced(tokens: Seq<Seq<char>>) -> Seq<char>
    decreases tokens.len(),
{
    if tokens.len() == 0 {
        Seq::empty()
    } else if tokens.len() == 1 {
        tokens[0]
    } else {
        spaced(tokens.drop_last()) + seq![' '] + tokens.last()
    }
}

/// The exact rendering of a nanosecond count: a minus sign for a negative
/// count, then the tokens of its magnitude.
pub open spec fn exact_text(nanos: int) -> Seq<char> {
    if nanos < 0 {
        seq!['-'] + spaced(exact_tokens(negated(nanos) as nat))
    } else {
        spaced(exact_tokens(nanos as nat))
    }
}

/// Appending one more token to a spaced text puts a space before it unless
/// it is the first.
proof fn lemma_spaced_push(tokens: Seq<Seq<char>>, token: Seq<char>)
    ensures
        spaced(tokens.push(token)) == if tokens.len() == 0 {
            token
        } else {
            spaced(tokens) + seq![' '] + token
        },
{
    assert(tokens.push(token).drop_last() == tokens);
}

/// Appends the token of one unit to `out`, after a space when a token was
/// written before, and reports whether any token has been written by now.
fn push_unit(
    out: &mut String,
    count: i64,
    unit: char,
    did_write: bool,
    Ghost(before): Ghost<Seq<char>>,
    Ghost(tokens): Ghost<Seq<Seq<char>>>,
) -> (wrote: bool)
    requires
        0 <= count,
        old(out)@ == before + spaced(tokens),
        did_write == (tokens.len() > 0),
    ensures
        final(out)@ == before + spaced(tokens + unit_tokens(count as nat, unit)),
        wrote == ((tokens + unit_tokens(count as nat, unit)).len() > 0),
{
    if count > 0 {
        if did_write {
            out.push(' ');
        }
        push_decimal(out, count as u64);
        out.push(unit);
        proof {
            let token = decimal(count as nat).push(unit);
            lemma_spaced_push(tokens, token);
            assert(tokens + unit_tokens(count as nat, unit) == tokens.push(token));
        }
        true
    } else {
        assert(tokens + unit_tokens(count as nat, unit) == tokens);
        did_write
    }
}

/// How a count of seconds falls apart when days, then hours, then minutes
/// are taken off it in turn.
proof fn lemma_split_seconds(secs: int)
    requires
        0 <= secs,
    ensures
        (secs - (secs / 86_400) * 86_400) / 3_600 == secs / 3_600 % 24,
        (secs - (secs / 86_400) * 86_400 - (secs / 3_600 % 24) * 3_600) / 60 == secs / 60 % 60,
        secs - (secs / 86_400) * 86_400 - (secs / 3_600 % 24) * 3_600 - (secs / 60 % 60) * 60
            == secs % 60,
{
}

/// Appends the exact rendering of a non-negative nanosecond count to `out`.
fn push_magnitude(out: &mut String, total_nanos: i64)
    requires
        0 <= total_nanos,
    ensures
        final(out)@ == old(out)@ + spaced(exact_tokens(total_nanos as nat)),
{
    let ghost before = out@;
    let whole_seconds: i64 = total_nanos / NANOS_PER_SEC;
    let nanos: i64 = total_nanos - NANOS_PER_SEC * whole_seconds;
    assert(nanos == total_nanos % 1_000_000_000);
    proof {
        lemma_split_seconds(whole_seconds as int);
    }

    let mut seconds_remaining: i64 = whole_seconds;
    let ghost mut tokens: Seq<Seq<char>> = seq![];
    assert(before + spaced(tokens) == before);

    let days: i64 = seconds_remaining / SEC_PER_DAY;
    let did_write = push_unit(out, days, 'd', false, Ghost(before), Ghost(tokens));
    seconds_remaining -= days * SEC_PER_DAY;
    proof {
        tokens = tokens + unit_tokens(days as nat, 'd');
    }

    let hours: i64 = seconds_remaining / SEC_PER_HOUR;
    let did_write = push_unit(out, hours, 'h', did_write, Ghost(before), Ghost(tokens));
    seconds_remaining -= hours * SEC_PER_HOUR;
    proof {
        tokens = tokens + unit_tokens(hours as nat, 'h');
    }

    let minutes: i64 = seconds_remaining / SEC_PER_MINUTE;
    let did_write = push_unit(out, minutes, 'm', did_write, Ghost(before), Ghost(tokens));
    seconds_remaining -= minutes * SEC_PER_MINUTE;
    proof {
        tokens = tokens + unit_tokens(minutes as nat, 'm');
        assert(seconds_remaining == whole_seconds % 60);
        assert(tokens == unit_tokens((whole_seconds / 86_400) as nat, 'd') + unit_tokens(
            (whole_seconds / 3_600 % 24) as nat,
            'h',
        ) + unit_tokens((whole_seconds / 60 % 60) as nat, 'm'));
    }

    if seconds_remaining > 0 || nanos > 0 || !did_write {
        if did_write {
            out.push(' ');
        }
        push_decimal(out, seconds_remaining as u64);
        if nanos != 0 {
            out.push('.');
            push_three_digits(out, (nanos / NANOS_PER_MILLI) as u64);
        }
        out.push('s');
        proof {
            let token = seconds_token(seconds_remaining as nat, nanos as nat);
            lemma_spaced_push(tokens, token);
            assert(out@ == before + spaced(tokens.push(token)));
        }
    }
}

impl Duration {
    /// The duration written exactly, in the largest units that apply:
    /// `1d 1h 1m 1.500s`, `-5s`, `0s`. A fraction of a second is cut to
    /// whole milliseconds.
    pub fn exact_format(&self) -> (text: String)
        ensures
            text@ == exact_text(self@),
    {
        let mut out = String::new();
        if self.as_nanos() < 0 {
            out.push('-');
            assert(out@ == seq!['-']);
            let magnitude = std::ops::Neg::neg(*self);
            push_magnitude(&mut out, magnitude.as_nanos());
        } else {
            push_magnitude(&mut out, self.as_nanos());
            assert(out@ == spaced(exact_tokens(self@ as nat)));
        }
        out
    }
}

} // verus!
