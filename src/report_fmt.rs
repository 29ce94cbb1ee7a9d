//! Text forms of a span of time.

use vstd::prelude::*;
use vstd::string::*;

use crate::time::TimeSpan;

verus! {

pub open spec fn digit_char(d: nat) -> char {
    if d == 0 { '0' }
    else if d == 1 { '1' }
    else if d == 2 { '2' }
    else if d == 3 { '3' }
    else if d == 4 { '4' }
    else if d == 5 { '5' }
    else if d == 6 { '6' }
    else if d == 7 { '7' }
    else if d == 8 { '8' }
    else { '9' }
}

/// The decimal digits of `n`, without leading zeros.
pub open spec fn decimal(n: nat) -> Seq<char>
    decreases n,
{
    if n < 10 {
        seq![digit_char(n)]
    } else {
        decimal(n / 10) + seq![digit_char(n % 10)]
    }
}

/// The decimal digits of `n`, padded with a zero to at least two.
pub open spec fn two_digits(n: nat) -> Seq<char> {
    if n < 10 {
        seq!['0', digit_char(n)]
    } else {
        decimal(n)
    }
}

/// `HH:MM:SS` for a number of seconds: hours unbounded, minutes and seconds
/// below sixty, each at least two digits.
pub open spec fn hour_min_sec(secs: nat) -> Seq<char> {
    two_digits(secs / 3600) + seq![':'] + two_digits((secs % 3600) / 60) + seq![':']
        + two_digits(secs % 60)
}

fn digit_str(d: u64) -> (r: &'static str)
    requires
        d < 10,
    ensures
        r@ == seq![digit_char(d as nat)],
{
    proof {
        reveal_strlit("0");
        reveal_strlit("1");
        reveal_strlit("2");
        reveal_strlit("3");
        reveal_strlit("4");
        reveal_strlit("5");
        reveal_strlit("6");
        reveal_strlit("7");
        reveal_strlit("8");
        reveal_strlit("9");
    }
    match d {
        0 => "0",
        1 => "1",
        2 => "2",
        3 => "3",
        4 => "4",
        5 => "5",
        6 => "6",
        7 => "7",
        8 => "8",
        _ => "9",
    }
}

fn push_decimal(s: &mut String, n: u64)
    ensures
        final(s)@ == old(s)@ + decimal(n as nat),
    decreases n,
{
    if n < 10 {
        s.append(digit_str(n));
    } else {
        push_decimal(s, n / 10);
        s.append(digit_str(n % 10));
        assert(final(s)@ =~= old(s)@ + decimal(n as nat));
    }
}

fn push_two_digits(s: &mut String, n: u64)
    ensures
        final(s)@ == old(s)@ + two_digits(n as nat),
{
    if n < 10 {
        s.append(digit_str(0));
        s.append(digit_str(n));
        assert(final(s)@ =~= old(s)@ + two_digits(n as nat));
    } else {
        push_decimal(s, n);
    }
}

/// Turns a span of time into text.
pub trait DurationFormatter {
    /// The text `format` gives for `duration`.
    spec fn formatted(&self, duration: TimeSpan) -> Seq<char>;

    fn format(&self, duration: TimeSpan) -> (r: String)
        ensures
            r@ == self.formatted(duration),
    ;
}

/// Formats a span as `HH:MM:SS`, dropping the milliseconds.
#[derive(Debug, Default, Clone, Copy)]
pub struct HourMinSecFormatter;

impl DurationFormatter for HourMinSecFormatter {
    open spec fn formatted(&self, duration: TimeSpan) -> Seq<char> {
        hour_min_sec((duration.millis / 1000) as nat)
    }

    fn format(&self, duration: TimeSpan) -> (r: String) {
        let duration_in_sec = duration.as_secs();
        let seconds = duration_in_sec % 60;
        let minutes = (duration_in_sec % 3600) / 60;
        let hours = duration_in_sec / 3600;
        let mut text = String::new();
        push_two_digits(&mut text, hours);
        proof { reveal_strlit(":"); }
        text.append(":");
        push_two_digits(&mut text, minutes);
        text.append(":");
        push_two_digits(&mut text, seconds);
        assert(text@ =~= hour_min_sec(duration_in_sec as nat));
        text
    }
}

} // verus!
