//! A full-screen terminal clock library: it turns the current wall-clock
//! time into a line of seven-segment-style glyphs, centered in the
//! terminal, and drives a redraw/resize/quit event loop.
//!
//! The library owns all decisions: which glyph each character becomes,
//! how a time is laid out as text, where the line starts, which screen
//! commands a redraw issues, and how the loop reacts to events. The
//! binary around it only performs terminal I/O.
use vstd::prelude::*;

pub mod clock;
pub mod colour;
pub mod error;
pub mod event_loop;
pub mod glyphs;
pub mod options;
pub mod screen;
mod text;
pub mod timefmt;

verus! {

/// The library's name and version, as shown by the help text.
pub fn version_string() -> (r: String)
    ensures
        r@ == "seven_clock version 0.1.0"@,
{
    String::from_str("seven_clock version 0.1.0")
}

/// The help text, shown on `-h`/`--help` and after a usage error.
pub fn usage_text() -> (r: String)
    ensures
        r@ == "seven_clock version 0.1.0\n\nseven_clock displays a clock using seven-segment characters.\n\nUSAGE:\n    seven_clock [OPTIONS]\n\nOPTIONS:\n    -h, --help\n            Prints this help information.\n\n    -24\n            Use 24-hour time.\n\n    -c, --color, --colour COLOUR\n            Set the colour of the clock.\n            COLOUR can be an RGB hex colour (#RRGGBB) or one of the eight\n            standard colour names: black, red, green, yellow, blue, magenta,\n            cyan, or white.\n\n    --seconds\n            Include seconds.\n"@,
{
    String::from_str(
        "seven_clock version 0.1.0\n\nseven_clock displays a clock using seven-segment characters.\n\nUSAGE:\n    seven_clock [OPTIONS]\n\nOPTIONS:\n    -h, --help\n            Prints this help information.\n\n    -24\n            Use 24-hour time.\n\n    -c, --color, --colour COLOUR\n            Set the colour of the clock.\n            COLOUR can be an RGB hex colour (#RRGGBB) or one of the eight\n            standard colour names: black, red, green, yellow, blue, magenta,\n            cyan, or white.\n\n    --seconds\n            Include seconds.\n",
    )
}

} // verus!
