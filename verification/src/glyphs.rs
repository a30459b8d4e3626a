//! The fixed alphabet of mask glyphs.

use vstd::prelude::*;

verus! {

/// Code point of the first glyph of the masking alphabet, `'!'`.
pub const FIRST_GLYPH: u8 = 0x21;

/// Number of glyphs in the masking alphabet: the printable ASCII characters
/// from `'!'` to `'~'`.
pub const GLYPH_COUNT: u8 = 94;

/// The masking alphabet as a sequence, in code point order.
pub open spec fn alphabet() -> Seq<char> {
    Seq::new(GLYPH_COUNT as nat, |i: int| ((FIRST_GLYPH + i) as u8) as char)
}

/// Whether `c` belongs to the masking alphabet.
pub open spec fn is_glyph(c: char) -> bool {
    '!' <= c <= '~'
}

/// Membership in the alphabet is membership in the range `'!'..='~'`.
pub proof fn lemma_alphabet_is_range(c: char)
    ensures
        alphabet().contains(c) <==> is_glyph(c),
{
    if is_glyph(c) {
        let i = c as int - FIRST_GLYPH as int;
        assert(alphabet()[i] == c);
    }
}

/// The glyph at position `index` of the alphabet, counted round and round:
/// after the last glyph comes the first again.
pub fn glyph_at(index: u8) -> (glyph: char)
    ensures
        glyph == alphabet()[index as int % GLYPH_COUNT as int],
        is_glyph(glyph),
{
    (FIRST_GLYPH + index % GLYPH_COUNT) as char
}

/// Tests whether `c` is one of the mask glyphs.
pub fn in_alphabet(c: char) -> (found: bool)
    ensures
        found == is_glyph(c),
{
    '!' <= c && c <= '~'
}

} // verus!
