use seven_clock::glyphs::{glyph_for, segmentify};

#[test]
fn every_digit_gets_its_segmented_glyph() {
    let expected = [
        '\u{1FBC0}', '\u{1FBC1}', '\u{1FBC2}', '\u{1FBC3}', '\u{1FBC4}', '\u{1FBC5}', '\u{1FBC6}',
        '\u{1FBC7}', '\u{1FBC8}', '\u{1FBC9}',
    ];
    for d in 0u32..10 {
        let c = char::from_digit(d, 10).unwrap();
        assert_eq!(glyph_for(c), expected[d as usize]);
    }
}

#[test]
fn digit_glyphs_are_unique_and_non_ascii() {
    let mut seen = Vec::new();
    for d in 0u32..10 {
        let g = glyph_for(char::from_digit(d, 10).unwrap());
        assert!(!g.is_ascii());
        assert!(!seen.contains(&g));
        seen.push(g);
    }
}

#[test]
fn non_digits_pass_through_unchanged() {
    for c in [':', ' ', 'A', 'P', 'M', 'q', '#', '\u{1FBC0}'] {
        assert_eq!(glyph_for(c), c);
    }
}

#[test]
fn segmentify_maps_digits_in_order() {
    let (text, count) = segmentify("0123456789");
    assert_eq!(
        text,
        "\u{1FBC0}\u{1FBC1}\u{1FBC2}\u{1FBC3}\u{1FBC4}\u{1FBC5}\u{1FBC6}\u{1FBC7}\u{1FBC8}\u{1FBC9}"
    );
    assert_eq!(count, 10);
}

#[test]
fn segmentify_keeps_punctuation_and_letters() {
    let (text, count) = segmentify("12:34 AM");
    assert_eq!(text, "\u{1FBC1}\u{1FBC2}:\u{1FBC3}\u{1FBC4} AM");
    assert_eq!(count, 8);
}

#[test]
fn glyph_count_is_one_per_input_character() {
    for s in ["", "7", "no digits here", "23:59:59", "\u{1FBC0}x"] {
        let (_, count) = segmentify(s);
        assert_eq!(count, s.chars().count());
    }
}
