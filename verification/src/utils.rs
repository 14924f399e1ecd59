//! Small helpers shared by the widgets and the tabs: a two-valued condition
//! and the clock-style formatting of a number of seconds.

use vstd::prelude::*;

verus! {

/// A two-valued answer, made from a `bool` or from the presence of a value.
#[derive(Debug, Clone, Copy, PartialEq, Eq, Structural)]
pub enum Condition {
    True,
    False,
}

impl Condition {
    /// The condition as a `bool`.
    pub open spec fn holds(self) -> bool {
        self is True
    }

    /// `True` exactly for `true`.
    pub fn from_bool(value: bool) -> (c: Condition)
        ensures
            c.holds() == value,
    {
        if value {
            Condition::True
        } else {
            Condition::False
        }
    }

    /// `True` exactly when a value is present.
    pub fn from_option<T>(value: &Option<T>) -> (c: Condition)
        ensures
            c.holds() == value.is_some(),
    {
        match value {
            Some(_) => Condition::True,
            None => Condition::False,
        }
    }

    /// Picks `on_true` when the condition holds and `on_false` otherwise.
    pub fn select<T>(self, on_true: T, on_false: T) -> (r: T)
        ensures
            r == if self.holds() { on_true } else { on_false },
    {
        match self {
            Condition::True => on_true,
            Condition::False => on_false,
        }
    }
}

impl From<bool> for Condition {
    fn from(value: bool) -> (c: Condition) {
        Condition::from_bool(value)
    }
}

impl vstd::std_specs::convert::FromSpecImpl<bool> for Condition {
    open spec fn obeys_from_spec() -> bool {
        true
    }

    open spec fn from_spec(value: bool) -> Condition {
        if value {
            Condition::True
        } else {
            Condition::False
        }
    }
}

impl<T> From<Option<T>> for Condition {
    fn from(value: Option<T>) -> (c: Condition) {
        Condition::from_option(&value)
    }
}

impl<T> vstd::std_specs::convert::FromSpecImpl<Option<T>> for Condition {
    open spec fn obeys_from_spec() -> bool {
        true
    }

    open spec fn from_spec(value: Option<T>) -> Condition {
        if value.is_some() {
            Condition::True
        } else {
            Condition::False
        }
    }
}

/// The character of one decimal digit.
pub open spec fn digit_char(d: nat) -> char
    recommends
        d < 10,
{
    if d == 0 {
        '0'
    } else if d == 1 {
        '1'
    } else if d == 2 {
        '2'
    } else if d == 3 {
        '3'
    } else if d == 4 {
        '4'
    } else if d == 5 {
        '5'
    } else if d == 6 {
        '6'
    } else if d == 7 {
        '7'
    } else if d == 8 {
        '8'
    } else {
        '9'
    }
}

/// The decimal numeral of `n`, without leading zeros.
pub open spec fn decimal(n: nat) -> Seq<char>
    decreases n,
{
    if n < 10 {
        seq![digit_char(n)]
    } else {
        decimal(n / 10).push(digit_char(n % 10))
    }
}

/// The decimal numeral of `n`, with a leading zero below ten.
pub open spec fn two_digits(n: nat) -> Seq<char> {
    if n < 10 {
        seq!['0'] + decimal(n)
    } else {
        decimal(n)
    }
}

/// `mm:ss` below one hour, `hh:mm:ss` from one hour on.
pub open spec fn time_text(seconds: nat) -> Seq<char> {
    let hours = seconds / 3600;
    let minutes = (seconds % 3600) / 60;
    let rest = seconds % 60;
    if hours > 0 {
        two_digits(hours) + seq![':'] + two_digits(minutes) + seq![':'] + two_digits(rest)
    } else {
        two_digits(minutes) + seq![':'] + two_digits(rest)
    }
}

/// `String::push` of std appends one character to the end of the string.
pub assume_specification[ String::push ](s: &mut String, ch: char)
    ensures
        final(s)@ == old(s)@.push(ch),
;

/// Appends one character to `out`.
pub fn push_char(out: &mut String, c: char)
    ensures
        final(out)@ == old(out)@.push(c),
{
    out.push(c);
}

fn digit(d: u64) -> (c: char)
    requires
        d < 10,
    ensures
        c == digit_char(d as nat),
{
    if d == 0 {
        '0'
    } else if d == 1 {
        '1'
    } else if d == 2 {
        '2'
    } else if d == 3 {
        '3'
    } else if d == 4 {
        '4'
    } else if d == 5 {
        '5'
    } else if d == 6 {
        '6'
    } else if d == 7 {
        '7'
    } else if d == 8 {
        '8'
    } else {
        '9'
    }
}

/// Appends the decimal numeral of `n` to `out`.
pub fn push_decimal(out: &mut String, n: u64)
    ensures
        final(out)@ == old(out)@ + decimal(n as nat),
    decreases n,
{
    if n >= 10 {
        push_decimal(out, n / 10);
    }
    out.push(digit(n % 10));
}

/// Appends the numeral of `n` to `out`, with a leading zero below ten.
pub fn push_two_digits(out: &mut String, n: u64)
    ensures
        final(out)@ == old(out)@ + two_digits(n as nat),
{
    if n < 10 {
        out.push('0');
    }
    push_decimal(out, n);
}

/// Formats a number of seconds as a clock reading: minutes and seconds, led
/// by the hours once there is a full one.
pub fn format_time(seconds: u64) -> (text: String)
    ensures
        text@ == time_text(seconds as nat),
{
    let hours = seconds / 3600;
    let minutes = (seconds % 3600) / 60;
    let rest = seconds % 60;
    let mut text = String::new();
    if hours > 0 {
        push_two_digits(&mut text, hours);
        text.push(':');
    }
    push_two_digits(&mut text, minutes);
    text.push(':');
    push_two_digits(&mut text, rest);
    text
}

} // verus!
