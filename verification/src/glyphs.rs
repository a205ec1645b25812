//! The glyph encoder: maps ASCII decimal digits to the Unicode
//! segmented-digit block starting at U+1FBC0, and leaves every other
//! character unchanged.
use vstd::prelude::*;
use vstd::string::StrSliceExecFns;

verus! {

/// The glyph a single character renders as: an ASCII digit becomes the
/// segmented-digit glyph at `U+1FBC0 + (digit value)`; anything else is
/// itself.
pub open spec fn spec_glyph(c: char) -> char {
    if '0' <= c && c <= '9' {
        (0x1FBC0 + (c as u32) - 0x30) as char
    } else {
        c
    }
}

/// Every digit gets a unique, stable glyph outside the ASCII range, and
/// every non-digit character is mapped to itself.
pub proof fn lemma_glyph_encoding()
    ensures
        forall|c: char| ('0' <= c && c <= '9') ==> #[trigger] spec_glyph(c) as u32 == 0x1FBC0 + (
        c as u32) - 0x30,
        forall|c: char| ('0' <= c && c <= '9') ==> #[trigger] spec_glyph(c) as u32 > 0x7F,
        forall|c1: char, c2: char|
            ('0' <= c1 && c1 <= '9' && '0' <= c2 && c2 <= '9' && c1 != c2) ==> spec_glyph(c1)
                != spec_glyph(c2),
        forall|c: char| !('0' <= c && c <= '9') ==> #[trigger] spec_glyph(c) == c,
{
}

/// Encode one character.
pub fn glyph_for(c: char) -> (r: char)
    ensures
        r == spec_glyph(c),
{
    match c {
        '0' => '\u{1FBC0}',
        '1' => '\u{1FBC1}',
        '2' => '\u{1FBC2}',
        '3' => '\u{1FBC3}',
        '4' => '\u{1FBC4}',
        '5' => '\u{1FBC5}',
        '6' => '\u{1FBC6}',
        '7' => '\u{1FBC7}',
        '8' => '\u{1FBC8}',
        '9' => '\u{1FBC9}',
        _ => c,
    }
}

/// Encode a whole string, character by character and order-preserving,
/// and report how many characters were processed. The count equals the
/// input's character count: every character, digit or not, contributes
/// exactly one glyph.
pub fn segmentify(s: &str) -> (r: (String, usize))
    ensures
        r.0@ == s@.map_values(|c: char| spec_glyph(c)),
        r.1 as nat == s@.len(),
{
    let n: usize = s.unicode_len();
    let mut out: String = String::new();
    let mut i: usize = 0;
    while i < n
        invariant
            n as nat == s@.len(),
            i <= n,
            out@ == s@.subrange(0, i as int).map_values(|c: char| spec_glyph(c)),
        decreases n - i,
    {
        let c = s.get_char(i);
        crate::text::push_char(&mut out, glyph_for(c));
        i = i + 1;
        proof {
            assert(s@.subrange(0, i as int) =~= s@.subrange(0, i - 1).push(s@[i - 1]));
            assert(out@ =~= s@.subrange(0, i as int).map_values(|c: char| spec_glyph(c)));
        }
    }
    proof {
        assert(s@.subrange(0, n as int) =~= s@);
    }
    (out, n)
}

} // verus!
