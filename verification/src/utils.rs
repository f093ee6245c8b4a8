//! Texts shown on screen: numbers in decimal, pluralized counts and
//! "time ago" phrases.
use vstd::prelude::*;
use vstd::string::*;
use crate::foreign::{push_char, trunc_div, within_time_delta, whole_weeks, whole_days, whole_hours, whole_minutes};

verus! {

/// The ASCII digit for `d`, which must be below ten.
pub open spec fn digit_char(d: nat) -> char {
    if d == 0 { '0' } else if d == 1 { '1' } else if d == 2 { '2' } else if d == 3 { '3' }
    else if d == 4 { '4' } else if d == 5 { '5' } else if d == 6 { '6' } else if d == 7 { '7' }
    else if d == 8 { '8' } else { '9' }
}

/// The decimal digits of `n`, most significant first, without leading zeros.
pub open spec fn digits(n: nat) -> Seq<char>
    decreases n,
{
    if n < 10 {
        seq![digit_char(n)]
    } else {
        digits(n / 10).push(digit_char(n % 10))
    }
}

/// `n` written in decimal, with a leading minus sign when it is negative.
pub open spec fn decimal(n: int) -> Seq<char> {
    if n < 0 {
        seq!['-'] + digits((-n) as nat)
    } else {
        digits(n as nat)
    }
}

fn digit(d: u64) -> (c: char)
    requires
        d < 10,
    ensures
        c == digit_char(d as nat),
{
    if d == 0 { '0' } else if d == 1 { '1' } else if d == 2 { '2' } else if d == 3 { '3' }
    else if d == 4 { '4' } else if d == 5 { '5' } else if d == 6 { '6' } else if d == 7 { '7' }
    else if d == 8 { '8' } else { '9' }
}

fn push_digits(s: &mut String, n: u64)
    ensures
        final(s)@ == old(s)@ + digits(n as nat),
    decreases n,
{
    if n >= 10 {
        push_digits(s, n / 10);
    }
    push_char(s, digit(n % 10));
    proof {
        if n >= 10 {
            assert(digits(n as nat) == digits((n / 10) as nat).push(digit_char((n % 10) as nat)));
        }
    }
    assert(final(s)@ =~= old(s)@ + digits(n as nat));
}

/// Writes `n` in decimal.
pub fn decimal_string(n: i64) -> (s: String)
    ensures
        s@ == decimal(n as int),
{
    let mut s = String::new();
    if n < 0 {
        push_char(&mut s, '-');
        let magnitude: u64 = if n == i64::MIN { 9223372036854775808u64 } else { (-n) as u64 };
        push_digits(&mut s, magnitude);
    } else {
        push_digits(&mut s, n as u64);
    }
    assert(s@ =~= decimal(n as int));
    s
}

} // verus!

verus! {

/// `number` followed by a space and the singular label when the number is
/// one, the plural label otherwise.
pub open spec fn pluralized(number: int, singular: Seq<char>, plural: Seq<char>) -> Seq<char> {
    decimal(number) + seq![' '] + if number == 1 { singular } else { plural }
}

/// Writes a count with the label that agrees with it, such as "1 branch" or
/// "3 branches".
pub fn pluralize(number: i64, singular: &'static str, plural: &'static str) -> (s: String)
    ensures
        s@ == pluralized(number as int, singular@, plural@),
{
    let label = if number == 1 { singular } else { plural };
    let mut s = decimal_string(number);
    push_char(&mut s, ' ');
    s.append(label);
    s
}

/// How long ago something happened, in the largest unit that fits: years of
/// 52 weeks, months of 4 weeks, weeks, days, hours or minutes; "just now"
/// under a minute.
pub open spec fn time_ago(seconds: int) -> Seq<char> {
    let days = trunc_div(seconds, 86400);
    let weeks = trunc_div(days, 7);
    let years = trunc_div(weeks, 52);
    let months = trunc_div(weeks, 4);
    let hours = trunc_div(seconds, 3600);
    let minutes = trunc_div(seconds, 60);
    if years > 0 {
        pluralized(years, "year"@, "years"@) + " ago"@
    } else if months > 0 {
        pluralized(months, "month"@, "months"@) + " ago"@
    } else if weeks > 0 {
        pluralized(weeks, "week"@, "weeks"@) + " ago"@
    } else if days > 0 {
        pluralized(days, "day"@, "days"@) + " ago"@
    } else if hours > 0 {
        pluralized(hours, "hour"@, "hours"@) + " ago"@
    } else if minutes == 0 {
        "just now"@
    } else {
        pluralized(minutes, "minute"@, "minutes"@) + " ago"@
    }
}

/// Says how long ago a moment was, given the whole seconds that have passed
/// since it (negative when it lies ahead).
pub fn time_ago_in_words(duration_seconds: i64) -> (s: String)
    requires
        within_time_delta(duration_seconds as int),
    ensures
        s@ == time_ago(duration_seconds as int),
{
    let weeks = whole_weeks(duration_seconds);
    let years = weeks / 52;
    let mut time_ago = if years > 0 {
        pluralize(years, "year", "years")
    } else {
        let months = weeks / 4;
        if months > 0 {
            pluralize(months, "month", "months")
        } else if weeks > 0 {
            pluralize(weeks, "week", "weeks")
        } else {
            let days = whole_days(duration_seconds);
            if days > 0 {
                pluralize(days, "day", "days")
            } else {
                let hours = whole_hours(duration_seconds);
                if hours > 0 {
                    pluralize(hours, "hour", "hours")
                } else {
                    let minutes = whole_minutes(duration_seconds);
                    if minutes == 0 {
                        return String::from_str("just now");
                    } else {
                        pluralize(minutes, "minute", "minutes")
                    }
                }
            }
        }
    };
    time_ago.append(" ago");
    time_ago
}

} // verus!

verus! {

/// Writes a count in decimal.
pub fn count_string(n: usize) -> (s: String)
    ensures
        s@ == decimal(n as int),
{
    let mut s = String::new();
    push_digits(&mut s, n as u64);
    assert(s@ =~= decimal(n as int));
    s
}

} // verus!
