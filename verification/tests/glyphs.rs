use decrypt_effect::glyphs::{glyph_at, in_alphabet, GLYPH_COUNT};

#[test]
fn alphabet_spans_the_printable_ascii_range() {
    assert_eq!(GLYPH_COUNT, 94);
    assert_eq!(glyph_at(0), '!');
    assert_eq!(glyph_at(GLYPH_COUNT - 1), '~');
    for index in 0..GLYPH_COUNT {
        assert!(in_alphabet(glyph_at(index)));
        assert_eq!(glyph_at(index) as u32, 0x21 + index as u32);
    }
}

#[test]
fn positions_past_the_end_start_over() {
    assert_eq!(glyph_at(GLYPH_COUNT), '!');
    assert_eq!(glyph_at(GLYPH_COUNT + 1), '"');
    assert_eq!(glyph_at(u8::MAX), glyph_at(u8::MAX % GLYPH_COUNT));
    for index in 0..=u8::MAX {
        assert!(in_alphabet(glyph_at(index)));
    }
}

#[test]
fn blanks_and_controls_are_no_glyphs() {
    assert!(!in_alphabet(' '));
    assert!(!in_alphabet('\n'));
    assert!(!in_alphabet('\u{7f}'));
    assert!(!in_alphabet('é'));
}
