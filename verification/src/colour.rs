//! Colour values and the colour argument parser: `#RRGGBB` hex or one
//! of the eight standard colour names.
use vstd::prelude::*;
use vstd::string::StrSliceExecFns;
use vstd::string::StringExecFns;
use crate::error::Error;

verus! {

/// A foreground colour: one of the eight standard terminal colours, or
/// an exact RGB value.
#[derive(Clone, Copy, PartialEq, Eq, Structural, Debug)]
pub enum Colour {
    Black,
    Red,
    Green,
    Yellow,
    Blue,
    Magenta,
    Cyan,
    White,
    Rgb(u8, u8, u8),
}

/// Whether a character is a hexadecimal digit (either case).
pub open spec fn is_hex_digit(c: char) -> bool {
    ('0' <= c && c <= '9') || ('a' <= c && c <= 'f') || ('A' <= c && c <= 'F')
}

/// The value of a hexadecimal digit.
pub open spec fn hex_digit_value(c: char) -> int
    recommends
        is_hex_digit(c),
{
    if '0' <= c && c <= '9' {
        c as u32 - 0x30
    } else if 'a' <= c && c <= 'f' {
        c as u32 - 0x61 + 10
    } else {
        c as u32 - 0x41 + 10
    }
}

/// The byte two adjacent hexadecimal digits spell.
pub open spec fn hex_byte(s: Seq<char>, i: int) -> u8
    recommends
        0 <= i,
        i + 1 < s.len(),
        is_hex_digit(s[i]),
        is_hex_digit(s[i + 1]),
{
    (hex_digit_value(s[i]) * 16 + hex_digit_value(s[i + 1])) as u8
}

/// What a six-character hex body (the part after `#`) parses to:
/// defined exactly when it is six hexadecimal digits.
pub open spec fn spec_parse_hex(s: Seq<char>) -> Option<Colour> {
    if s.len() == 6 && (forall|i: int| 0 <= i < 6 ==> is_hex_digit(#[trigger] s[i])) {
        Some(Colour::Rgb(hex_byte(s, 0), hex_byte(s, 2), hex_byte(s, 4)))
    } else {
        None
    }
}

/// What a colour argument parses to: `#` followed by six hex digits, or
/// one of the eight standard colour names; anything else is rejected.
pub open spec fn spec_parse_colour(s: Seq<char>) -> Option<Colour> {
    if s.len() > 0 && s[0] == '#' {
        spec_parse_hex(s.skip(1))
    } else if s == "black"@ {
        Some(Colour::Black)
    } else if s == "red"@ {
        Some(Colour::Red)
    } else if s == "green"@ {
        Some(Colour::Green)
    } else if s == "yellow"@ {
        Some(Colour::Yellow)
    } else if s == "blue"@ {
        Some(Colour::Blue)
    } else if s == "magenta"@ {
        Some(Colour::Magenta)
    } else if s == "cyan"@ {
        Some(Colour::Cyan)
    } else if s == "white"@ {
        Some(Colour::White)
    } else {
        None
    }
}

/// The message a rejected colour argument carries.
pub open spec fn spec_colour_error_message(s: Seq<char>) -> Seq<char> {
    if s.len() > 0 && s[0] == '#' {
        "invalid colour: '"@ + s + "'"@
    } else {
        "unable to parse colour: '"@ + s + "'"@
    }
}

/// The value of one hexadecimal digit character, if it is one.
fn hex_val(c: char) -> (r: Option<u8>)
    ensures
        r is Some <==> is_hex_digit(c),
        r is Some ==> r->0 == hex_digit_value(c) && r->0 < 16,
{
    let u = c as u32;
    if 0x30 <= u && u <= 0x39 {
        Some((u - 0x30) as u8)
    } else if 0x61 <= u && u <= 0x66 {
        Some((u - 0x61 + 10) as u8)
    } else if 0x41 <= u && u <= 0x46 {
        Some((u - 0x41 + 10) as u8)
    } else {
        None
    }
}

/// The byte spelled at positions `i`, `i + 1`, if both are hex digits.
fn hex_pair(s: &str, i: usize) -> (r: Option<u8>)
    requires
        i < usize::MAX,
        i + 1 < s@.len(),
    ensures
        r is Some <==> is_hex_digit(s@[i as int]) && is_hex_digit(s@[i as int + 1]),
        r is Some ==> r->0 == hex_byte(s@, i as int),
{
    let hi = hex_val(s.get_char(i));
    let lo = hex_val(s.get_char(i + 1));
    match (hi, lo) {
        (Some(h), Some(l)) => Some(h * 16 + l),
        _ => None,
    }
}

/// Parse the six-digit body of a `#RRGGBB` colour (without the `#`).
pub fn parse_hex(hex: &str) -> (r: Result<Colour, Error>)
    ensures
        r is Ok <==> spec_parse_hex(hex@) is Some,
        r is Ok ==> Some(r->Ok_0) == spec_parse_hex(hex@),
        r is Err ==> (r->Err_0 matches Error::Config(m) && m@ == "invalid colour: '#"@ + hex@
            + "'"@),
{
    let n = hex.unicode_len();
    if n != 6 {
        return Err(
            Error::Config(String::from_str("invalid colour: '#").concat(hex).concat("'")),
        );
    }
    let red = hex_pair(hex, 0);
    let green = hex_pair(hex, 2);
    let blue = hex_pair(hex, 4);
    match (red, green, blue) {
        (Some(red), Some(green), Some(blue)) => {
            proof {
                assert forall|i: int| 0 <= i < 6 implies is_hex_digit(#[trigger] hex@[i]) by {
                    assert(is_hex_digit(hex@[0]) && is_hex_digit(hex@[1]));
                    assert(is_hex_digit(hex@[2]) && is_hex_digit(hex@[3]));
                    assert(is_hex_digit(hex@[4]) && is_hex_digit(hex@[5]));
                }
            }
            Ok(Colour::Rgb(red, green, blue))
        },
        _ => Err(Error::Config(String::from_str("invalid colour: '#").concat(hex).concat("'"))),
    }
}

/// Parse a colour argument: `#RRGGBB` or a standard colour name.
pub fn parse_colour(s: &str) -> (r: Result<Colour, Error>)
    ensures
        r is Ok <==> spec_parse_colour(s@) is Some,
        r is Ok ==> Some(r->Ok_0) == spec_parse_colour(s@),
        r is Err ==> (r->Err_0 matches Error::Config(m) && m@ == spec_colour_error_message(s@)),
{
    let n = s.unicode_len();
    if n > 0 && s.get_char(0) == '#' {
        let body = s.substring_char(1, n);
        let r = parse_hex(body);
        proof {
            assert(body@ =~= s@.skip(1));
            if r is Err {
                assert("invalid colour: '#"@ + body@ =~= "invalid colour: '"@ + s@) by {
                    reveal_strlit("invalid colour: '#");
                    reveal_strlit("invalid colour: '");
                    assert("invalid colour: '#"@ =~= "invalid colour: '"@ + seq!['#']);
                    assert(s@ =~= seq!['#'] + body@);
                }
            }
        }
        r
    } else if crate::text::str_eq(s, "black") {
        Ok(Colour::Black)
    } else if crate::text::str_eq(s, "red") {
        Ok(Colour::Red)
    } else if crate::text::str_eq(s, "green") {
        Ok(Colour::Green)
    } else if crate::text::str_eq(s, "yellow") {
        Ok(Colour::Yellow)
    } else if crate::text::str_eq(s, "blue") {
        Ok(Colour::Blue)
    } else if crate::text::str_eq(s, "magenta") {
        Ok(Colour::Magenta)
    } else if crate::text::str_eq(s, "cyan") {
        Ok(Colour::Cyan)
    } else if crate::text::str_eq(s, "white") {
        Ok(Colour::White)
    } else {
        Err(Error::Config(String::from_str("unable to parse colour: '").concat(s).concat("'")))
    }
}

} // verus!
