use prolite::glyphs::font::{GLYPH_H, GLYPH_I, PRIMARY_TABLE_END, chars};
use prolite::glyphs::glyph::{Glyph, PLACEHOLDER_GLYPH_DATA};
use prolite::glyphs::{UnknownGlyphBehavior, get_glyph, get_glyph_placement};

fn glyph_bit(data: u64, width: usize, row: usize, col: usize) -> bool {
    (data >> ((6 - row) * width + (width - 1 - col))) & 1 == 1
}

#[test]
fn width_decoding() {
    assert_eq!(Glyph::new(GLYPH_H).width(), 5);
    assert_eq!(Glyph::new(GLYPH_I).width(), 3);
    assert_eq!(Glyph::new(PLACEHOLDER_GLYPH_DATA).width(), 7);
    // a set top bit marks the maximal width regardless of the other bits
    assert_eq!(Glyph::new(1u64 << 63).width(), 9);
    assert_eq!(Glyph::new((1u64 << 63) | 12345).width(), 9);
    assert_eq!(Glyph::new(0).width(), 1);
    assert_eq!(Glyph::new(GLYPH_H).height(), 7);
}

#[test]
fn font_lookup() {
    assert!(get_glyph('A').is_some());
    assert!(get_glyph('a').is_some());
    assert!(get_glyph('0').is_some());
    assert!(get_glyph(' ').is_some());
    // characters outside the font
    assert!(get_glyph('~').is_none());
    assert!(get_glyph('#').is_none());
    // the overflow table answers a codepoint beyond the primary range
    assert!('\u{1f98a}' as u32 >= PRIMARY_TABLE_END);
    assert!(get_glyph('\u{1f98a}').is_some());
    assert_eq!(get_glyph('\u{1f98a}').unwrap().width(), 7);
    assert!(get_glyph('\u{2603}').is_none());
}

#[test]
fn overflow_table_contents() {
    let extra = chars();
    assert_eq!(extra.len(), 1);
    assert_eq!(extra[0].0, '\u{1f98a}');
    assert_eq!(extra[0].1.width(), 7);
}

#[test]
fn placement_width_is_sum_of_widths_plus_gaps() {
    // "HI": 5 + gap + 3
    let r = get_glyph_placement("HI", UnknownGlyphBehavior::Ignore);
    assert_eq!(r.glyphs.len(), 2);
    assert_eq!(r.width, 9);
    assert_eq!(r.glyphs[0].x_offset, 0);
    assert_eq!(r.glyphs[1].x_offset, 6);

    // "ABC": 5 + 1 + 5 + 1 + 5
    let r = get_glyph_placement("ABC", UnknownGlyphBehavior::Ignore);
    assert_eq!(r.glyphs.len(), 3);
    assert_eq!(r.width, 17);
}

#[test]
fn empty_text_yields_width_zero_and_no_glyphs() {
    let r = get_glyph_placement("", UnknownGlyphBehavior::Ignore);
    assert_eq!(r.width, 0);
    assert!(r.glyphs.is_empty());
    let r = get_glyph_placement("", UnknownGlyphBehavior::ReplaceWithPlaceholder);
    assert_eq!(r.width, 0);
    assert!(r.glyphs.is_empty());
}

#[test]
fn unknown_characters_substituted() {
    // '~' has no glyph; the placeholder is 7 wide
    let r = get_glyph_placement("A~A", UnknownGlyphBehavior::ReplaceWithPlaceholder);
    assert_eq!(r.glyphs.len(), 3);
    assert_eq!(r.width, 5 + 1 + 7 + 1 + 5);
    assert_eq!(r.glyphs[1].glyph.width(), 7);
    assert_eq!(r.glyphs[1].x_offset, 6);
}

#[test]
fn ignored_characters_are_skipped_entirely() {
    // a skipped character contributes nothing: no glyph, no column
    let r = get_glyph_placement("A~A", UnknownGlyphBehavior::Ignore);
    assert_eq!(r.glyphs.len(), 2);
    assert_eq!(r.glyphs[0].x_offset, 0);
    assert_eq!(r.glyphs[1].x_offset, 6);
    assert_eq!(r.width, 11);

    // the same regardless of where the skipped characters sit
    let r = get_glyph_placement("~~A~B~", UnknownGlyphBehavior::Ignore);
    assert_eq!(r.glyphs.len(), 2);
    assert_eq!(r.glyphs[0].x_offset, 0);
    assert_eq!(r.glyphs[1].x_offset, 6);
    assert_eq!(r.width, 11);

    // a text of only unknown characters places nothing at all
    let r = get_glyph_placement("~~~", UnknownGlyphBehavior::Ignore);
    assert!(r.glyphs.is_empty());
    assert_eq!(r.width, 0);
}

#[test]
fn offsets_are_prior_widths_plus_gaps() {
    // each glyph starts one spacing column after its predecessor ends,
    // and the width reaches exactly to the last glyph's end
    let r = get_glyph_placement("Hi l1", UnknownGlyphBehavior::Ignore);
    let widths: Vec<usize> = r.glyphs.iter().map(|g| g.glyph.width()).collect();
    assert_eq!(widths, vec![5, 1, 3, 3, 3]);
    let mut expected = 0;
    for g in &r.glyphs {
        assert_eq!(g.x_offset, expected);
        expected += g.glyph.width() + 1;
    }
    let last = r.glyphs.last().unwrap();
    assert_eq!(r.width, last.x_offset + last.glyph.width());
}

#[test]
fn glyph_bitmap_shape_of_h() {
    // H: two full columns joined by a middle bar
    let g = get_glyph('H').unwrap();
    let w = g.width();
    assert_eq!(w, 5);
    for row in 0..7 {
        assert!(glyph_bit(GLYPH_H, w, row, 0));
        assert!(glyph_bit(GLYPH_H, w, row, 4));
    }
    assert!(glyph_bit(GLYPH_H, w, 3, 2));
    assert!(!glyph_bit(GLYPH_H, w, 0, 2));
    assert!(!glyph_bit(GLYPH_H, w, 6, 1));
}
