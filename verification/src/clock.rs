//! Elapsed/total time display.
//!
//! A clock renders a millisecond count as `MM:SS`, or `HH:MM:SS` once a
//! full hour has passed. Minutes and seconds are always two digits;
//! hours grow as many digits as they need, with at least two.

use vstd::prelude::*;

verus! {

/// The decimal digit character for `d` (meaningful for `0 <= d <= 9`).
pub open spec fn digit_char(d: int) -> char {
    if d == 0 {
        '0'
    } else if d == 1 {
        '1'
    } else if d == 2 {
        '2'
    } else if d == 3 {
        '3'
    } else if d == 4 {
        '4'
    } else if d == 5 {
        '5'
    } else if d == 6 {
        '6'
    } else if d == 7 {
        '7'
    } else if d == 8 {
        '8'
    } else {
        '9'
    }
}

/// The decimal digits of `n`, most significant first.
pub open spec fn dec_str(n: int) -> Seq<char>
    decreases n,
{
    if n < 10 {
        seq![digit_char(n)]
    } else {
        dec_str(n / 10).push(digit_char(n % 10))
    }
}

/// `n` rendered as exactly two digits (meaningful for `0 <= n <= 99`).
pub open spec fn two_digits(n: int) -> Seq<char> {
    seq![digit_char(n / 10), digit_char(n % 10)]
}

/// `n` in decimal, left-padded with `0` to at least two digits.
pub open spec fn padded_dec(n: int) -> Seq<char> {
    if n < 10 {
        seq!['0'] + dec_str(n)
    } else {
        dec_str(n)
    }
}

/// The clock text for a duration: `MM:SS` below one hour, `HH:MM:SS`
/// from one hour on.
pub open spec fn clock_display(value_ms: int) -> Seq<char> {
    let hours = value_ms / 3600000;
    let minutes = value_ms / 60000 % 60;
    let seconds = value_ms % 60000 / 1000;
    if hours > 0 {
        padded_dec(hours) + seq![':'] + two_digits(minutes) + seq![':'] + two_digits(seconds)
    } else {
        two_digits(minutes) + seq![':'] + two_digits(seconds)
    }
}

/// Relies on `String::push`: appends the given character to the end of
/// the string.
#[verifier::external_body]
fn push_char(s: &mut String, c: char)
    ensures
        final(s)@ == old(s)@.push(c),
{
    s.push(c);
}

/// The character for one decimal digit.
fn digit_to_char(d: u32) -> (c: char)
    requires
        d < 10,
    ensures
        c == digit_char(d as int),
{
    match d {
        0 => '0',
        1 => '1',
        2 => '2',
        3 => '3',
        4 => '4',
        5 => '5',
        6 => '6',
        7 => '7',
        8 => '8',
        _ => '9',
    }
}

/// Append the decimal digits of `n`.
fn push_dec(s: &mut String, n: u32)
    ensures
        final(s)@ == old(s)@ + dec_str(n as int),
    decreases n,
{
    if n < 10 {
        push_char(s, digit_to_char(n));
        assert(s@ =~= old(s)@ + dec_str(n as int));
    } else {
        push_dec(s, n / 10);
        push_char(s, digit_to_char(n % 10));
        assert(s@ =~= old(s)@ + dec_str(n as int));
    }
}

/// Append `n` as exactly two digits.
fn push_two_digits(s: &mut String, n: u32)
    requires
        n < 100,
    ensures
        final(s)@ == old(s)@ + two_digits(n as int),
{
    push_char(s, digit_to_char(n / 10));
    push_char(s, digit_to_char(n % 10));
    assert(s@ =~= old(s)@ + two_digits(n as int));
}

/// Append `n` in decimal, left-padded with `0` to at least two digits.
fn push_padded_dec(s: &mut String, n: u32)
    ensures
        final(s)@ == old(s)@ + padded_dec(n as int),
{
    if n < 10 {
        push_char(s, '0');
        push_dec(s, n);
        assert(s@ =~= old(s)@ + padded_dec(n as int));
    } else {
        push_dec(s, n);
    }
}

/// A clock showing elapsed and total time of the current track.
pub struct Clock {
    pub elapsed_ms: u32,
    pub total_ms: u32,
}

impl Default for Clock {
    /// A clock at the start of a track of unknown length.
    fn default() -> (c: Clock)
        ensures
            c == (Clock { elapsed_ms: 0u32, total_ms: 0u32 }),
    {
        Clock { elapsed_ms: 0, total_ms: 0 }
    }
}

impl Clock {
    /// Set the elapsed time.
    pub fn elapsed(self, elapsed_ms: u32) -> (c: Clock)
        ensures
            c == (Clock { elapsed_ms, ..self }),
    {
        Clock { elapsed_ms, ..self }
    }

    /// Set the total time.
    pub fn total(self, total_ms: u32) -> (c: Clock)
        ensures
            c == (Clock { total_ms, ..self }),
    {
        Clock { total_ms, ..self }
    }

    /// Render a duration as clock text.
    pub fn format(value_ms: u32) -> (r: String)
        ensures
            r@ == clock_display(value_ms as int),
    {
        let hours: u32 = value_ms / (3600 * 1000);
        let minutes: u32 = value_ms / (60 * 1000) % 60;
        let seconds: u32 = value_ms % (60 * 1000) / 1000;
        assert(minutes < 60);
        assert(seconds < 60);
        let mut s = String::new();
        if hours > 0 {
            push_padded_dec(&mut s, hours);
            push_char(&mut s, ':');
            push_two_digits(&mut s, minutes);
            push_char(&mut s, ':');
            push_two_digits(&mut s, seconds);
            assert(s@ =~= clock_display(value_ms as int));
        } else {
            push_two_digits(&mut s, minutes);
            push_char(&mut s, ':');
            push_two_digits(&mut s, seconds);
            assert(s@ =~= clock_display(value_ms as int));
        }
        s
    }
}

} // verus!
