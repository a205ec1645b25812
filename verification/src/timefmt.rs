//! The four fixed time layouts and the function that renders a
//! wall-clock time into text under one of them.
use vstd::prelude::*;

verus! {

/// A wall-clock time of day, as plain values.
pub struct Hms {
    pub hour: u8,
    pub minute: u8,
    pub second: u8,
}

impl Hms {
    /// A valid time of day.
    pub open spec fn wf(self) -> bool {
        self.hour < 24 && self.minute < 60 && self.second < 60
    }
}

/// The closed set of time layouts, selected by the two configuration
/// booleans (12/24-hour and with/without seconds).
#[derive(Clone, Copy, PartialEq, Eq, Structural, Debug)]
pub enum TimeFormat {
    /// `h:mm AM/PM`, no leading zero on the hour.
    TwelveHm,
    /// `h:mm:ss AM/PM`, no leading zero on the hour.
    TwelveHms,
    /// `HH:mm`.
    TwentyFourHm,
    /// `HH:mm:ss`.
    TwentyFourHms,
}

/// The character for a single decimal digit value.
pub open spec fn digit_char(d: int) -> char
    recommends
        0 <= d < 10,
{
    (0x30 + d) as char
}

/// A value rendered as exactly two decimal digits, zero-padded.
pub open spec fn two_digit_chars(n: int) -> Seq<char>
    recommends
        0 <= n < 100,
{
    seq![digit_char(n / 10), digit_char(n % 10)]
}

/// The hour shown on a 12-hour clock: 0 and 12 both show as 12.
pub open spec fn twelve_hour_of(h: int) -> int {
    if h % 12 == 0 {
        12
    } else {
        h % 12
    }
}

/// A 12-hour hour rendered without a leading zero: one digit below 10,
/// two digits for 10, 11 and 12.
pub open spec fn hour_chars_unpadded(h12: int) -> Seq<char>
    recommends
        1 <= h12 <= 12,
{
    if h12 < 10 {
        seq![digit_char(h12)]
    } else {
        two_digit_chars(h12)
    }
}

/// The AM/PM marker for an hour of the day.
pub open spec fn period_chars(h: int) -> Seq<char> {
    if h < 12 {
        seq![' ', 'A', 'M']
    } else {
        seq![' ', 'P', 'M']
    }
}

/// The exact text a time renders as under each layout.
pub open spec fn spec_format_time(t: Hms, f: TimeFormat) -> Seq<char> {
    let h = t.hour as int;
    let m = t.minute as int;
    let s = t.second as int;
    match f {
        TimeFormat::TwelveHm => hour_chars_unpadded(twelve_hour_of(h)) + seq![':']
            + two_digit_chars(m) + period_chars(h),
        TimeFormat::TwelveHms => hour_chars_unpadded(twelve_hour_of(h)) + seq![':']
            + two_digit_chars(m) + seq![':'] + two_digit_chars(s) + period_chars(h),
        TimeFormat::TwentyFourHm => two_digit_chars(h) + seq![':'] + two_digit_chars(m),
        TimeFormat::TwentyFourHms => two_digit_chars(h) + seq![':'] + two_digit_chars(m)
            + seq![':'] + two_digit_chars(s),
    }
}

/// One decimal digit as a character.
fn digit_char_of(d: u8) -> (c: char)
    requires
        d < 10,
    ensures
        c == digit_char(d as int),
{
    match d {
        0 => '0',
        1 => '1',
        2 => '2',
        3 => '3',
        4 => '4',
        5 => '5',
        6 => '6',
        7 => '7',
        8 => '8',
        _ => '9',
    }
}

/// Append a value as exactly two decimal digits.
fn push_two_digits(out: &mut String, n: u8)
    requires
        n < 100,
    ensures
        final(out)@ == old(out)@ + two_digit_chars(n as int),
{
    crate::text::push_char(out, digit_char_of(n / 10));
    crate::text::push_char(out, digit_char_of(n % 10));
    proof {
        assert(out@ =~= old(out)@ + two_digit_chars(n as int));
    }
}

/// Render a time of day as text under the given layout.
pub fn format_time(t: &Hms, f: TimeFormat) -> (r: String)
    requires
        t.wf(),
    ensures
        r@ == spec_format_time(*t, f),
{
    let mut out: String = String::new();
    let twenty_four = match f {
        TimeFormat::TwentyFourHm => true,
        TimeFormat::TwentyFourHms => true,
        _ => false,
    };
    let with_seconds = match f {
        TimeFormat::TwelveHms => true,
        TimeFormat::TwentyFourHms => true,
        _ => false,
    };
    if twenty_four {
        push_two_digits(&mut out, t.hour);
    } else {
        let h12: u8 = if t.hour % 12 == 0 {
            12
        } else {
            t.hour % 12
        };
        if h12 < 10 {
            crate::text::push_char(&mut out, digit_char_of(h12));
        } else {
            push_two_digits(&mut out, h12);
        }
    }
    crate::text::push_char(&mut out, ':');
    push_two_digits(&mut out, t.minute);
    if with_seconds {
        crate::text::push_char(&mut out, ':');
        push_two_digits(&mut out, t.second);
    }
    if !twenty_four {
        crate::text::push_char(&mut out, ' ');
        if t.hour < 12 {
            crate::text::push_char(&mut out, 'A');
        } else {
            crate::text::push_char(&mut out, 'P');
        }
        crate::text::push_char(&mut out, 'M');
    }
    proof {
        assert(out@ =~= spec_format_time(*t, f));
    }
    out
}

} // verus!
