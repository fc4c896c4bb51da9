//! Glyph rasterization: from a text to a row of positioned bitmaps.

use vstd::prelude::*;
use vstd::string::StrSliceExecFns;

pub mod font;
pub mod glyph;

use font::{PRIMARY_TABLE_END, extra_glyph_data, primary_glyph_data, spec_extra_glyph_data,
    spec_primary_glyph_data};
use glyph::{Glyph, PLACEHOLDER_GLYPH_DATA, glyph_width, lemma_glyph_width_bounds};

verus! {

/// Longest text the rasterizer accepts. Each character advances the width
/// cursor by at most ten columns, so this keeps every glyph position
/// within `i32` range for the offset arithmetic downstream.
pub const MAX_TEXT_LEN: usize = 214_748_356;

/// Largest total width the rasterizer can produce: ten columns for each
/// character of a longest accepted text.
pub const MAX_RENDERED_WIDTH: usize = 2_147_483_560;

/// What to do with a character the font has no glyph for.
#[derive(Debug, Clone, Copy, PartialEq, Eq, Structural)]
pub enum UnknownGlyphBehavior {
    ReplaceWithPlaceholder,
    Ignore,
}

/// One glyph placed at its column within the rendered text.
#[derive(Debug, Clone, Copy, PartialEq, Eq, Structural)]
pub struct RenderedGlyph {
    pub glyph: Glyph,
    pub x_offset: usize,
}

/// The rasterized form of a text: the placed glyphs in order and the
/// total width in columns.
#[derive(Debug)]
pub struct RenderedGlyphs {
    pub glyphs: Vec<RenderedGlyph>,
    pub width: usize,
}

impl RenderedGlyphs {
    /// Every glyph lies within the total width, and the total width is
    /// small enough for the offset arithmetic downstream.
    pub open spec fn wf(&self) -> bool {
        &&& self.width <= MAX_RENDERED_WIDTH
        &&& forall|k: int|
            0 <= k < self.glyphs@.len() ==> (#[trigger] self.glyphs@[k]).x_offset + glyph_width(
                self.glyphs@[k].glyph,
            ) <= self.width
    }
}

/// The glyph the font gives a character, if any.
pub open spec fn spec_get_glyph(c: char) -> Option<Glyph> {
    if (c as u32) < PRIMARY_TABLE_END {
        if spec_primary_glyph_data(c) == 0 {
            None
        } else {
            Some(Glyph { data: spec_primary_glyph_data(c) })
        }
    } else {
        if spec_extra_glyph_data(c) == 0 {
            None
        } else {
            Some(Glyph { data: spec_extra_glyph_data(c) })
        }
    }
}

/// The glyph actually drawn for a character: the font's glyph, or under
/// the substitution policy the placeholder, or none at all.
pub open spec fn spec_placed_glyph(c: char, behavior: UnknownGlyphBehavior) -> Option<Glyph> {
    match spec_get_glyph(c) {
        Some(g) => Some(g),
        None => match behavior {
            UnknownGlyphBehavior::ReplaceWithPlaceholder => Some(
                Glyph { data: PLACEHOLDER_GLYPH_DATA },
            ),
            UnknownGlyphBehavior::Ignore => None,
        },
    }
}

/// The width cursor after rasterizing a text: every drawn glyph advances
/// it by the glyph's width plus one spacing column; a character that
/// draws nothing is skipped entirely and leaves the cursor unchanged.
pub open spec fn spec_placement_cursor(text: Seq<char>, behavior: UnknownGlyphBehavior) -> int
    decreases text.len(),
{
    if text.len() == 0 {
        0
    } else {
        spec_placement_cursor(text.drop_last(), behavior) + (match spec_placed_glyph(
            text.last(),
            behavior,
        ) {
            Some(g) => glyph_width(g) + 1,
            None => 0,
        })
    }
}

/// The placed glyphs of a text, each at the cursor position reached
/// before it.
pub open spec fn spec_placement_glyphs(text: Seq<char>, behavior: UnknownGlyphBehavior) -> Seq<
    RenderedGlyph,
>
    decreases text.len(),
{
    if text.len() == 0 {
        Seq::empty()
    } else {
        let prev = spec_placement_glyphs(text.drop_last(), behavior);
        let cursor = spec_placement_cursor(text.drop_last(), behavior);
        match spec_placed_glyph(text.last(), behavior) {
            Some(g) => prev.push(RenderedGlyph { glyph: g, x_offset: cursor as usize }),
            None => prev,
        }
    }
}

/// The total width of a rasterized text: the final cursor less the one
/// trailing spacing column, or zero when no glyph was placed.
pub open spec fn spec_placement_width(text: Seq<char>, behavior: UnknownGlyphBehavior) -> int {
    let cursor = spec_placement_cursor(text, behavior);
    if cursor > 0 {
        cursor - 1
    } else {
        0
    }
}

/// Bounds of the rasterization: the cursor grows by at most ten columns
/// per character, at most one glyph is placed per character, and every
/// placed glyph ends before the cursor.
pub proof fn lemma_placement_bounds(text: Seq<char>, behavior: UnknownGlyphBehavior)
    requires
        text.len() <= MAX_TEXT_LEN,
    ensures
        0 <= spec_placement_cursor(text, behavior) <= 10 * text.len(),
        spec_placement_glyphs(text, behavior).len() <= text.len(),
        forall|k: int|
            0 <= k < spec_placement_glyphs(text, behavior).len() ==> (#[trigger] spec_placement_glyphs(
                text,
                behavior,
            )[k]).x_offset + glyph_width(spec_placement_glyphs(text, behavior)[k].glyph) + 1
                <= spec_placement_cursor(text, behavior),
    decreases text.len(),
{
    if text.len() > 0 {
        lemma_placement_bounds(text.drop_last(), behavior);
        match spec_placed_glyph(text.last(), behavior) {
            Some(g) => {
                lemma_glyph_width_bounds(g);
            },
            None => {},
        }
    }
}

/// Looks one character up in the font.
pub fn get_glyph(c: char) -> (g: Option<Glyph>)
    ensures
        g == spec_get_glyph(c),
{
    let codepoint = c as u32;
    if codepoint < PRIMARY_TABLE_END {
        let d = primary_glyph_data(c);
        if d == 0 {
            None
        } else {
            Some(Glyph::new(d))
        }
    } else {
        let d = extra_glyph_data(c);
        if d == 0 {
            None
        } else {
            Some(Glyph::new(d))
        }
    }
}

/// Rasterizes a text: places a glyph for each character the policy lets
/// through, with one spacing column between neighbours, and totals the
/// width.
pub fn get_glyph_placement(text: &str, behavior: UnknownGlyphBehavior) -> (r: RenderedGlyphs)
    requires
        text@.len() <= MAX_TEXT_LEN,
    ensures
        r.glyphs@ == spec_placement_glyphs(text@, behavior),
        r.width == spec_placement_width(text@, behavior),
        r.wf(),
{
    let n = text.unicode_len();
    let mut glyphs: Vec<RenderedGlyph> = Vec::new();
    let mut width: usize = 0;
    let mut i: usize = 0;
    while i < n
        invariant
            text@.len() == n,
            n <= MAX_TEXT_LEN,
            i <= n,
            glyphs@ == spec_placement_glyphs(text@.take(i as int), behavior),
            width == spec_placement_cursor(text@.take(i as int), behavior),
        decreases n - i,
    {
        proof {
            lemma_placement_bounds(text@.take(i as int), behavior);
            assert(text@.take(i + 1).drop_last() =~= text@.take(i as int));
            assert(text@.take(i + 1).last() == text@[i as int]);
        }
        let c = text.get_char(i);
        match get_glyph(c) {
            Some(glyph) => {
                glyphs.push(RenderedGlyph { glyph, x_offset: width });
                width = width + glyph.width() + 1;
            },
            None => {
                match behavior {
                    UnknownGlyphBehavior::ReplaceWithPlaceholder => {
                        let placeholder = Glyph::new(PLACEHOLDER_GLYPH_DATA);
                        glyphs.push(RenderedGlyph { glyph: placeholder, x_offset: width });
                        width = width + placeholder.width() + 1;
                    },
                    UnknownGlyphBehavior::Ignore => {},
                }
            },
        }
        i = i + 1;
    }
    proof {
        assert(text@.take(n as int) =~= text@);
        lemma_placement_bounds(text@, behavior);
    }
    if width > 0 {
        width = width - 1;
    }
    RenderedGlyphs { glyphs, width }
}

/// The sum of the widths of the glyphs drawn for a text.
pub open spec fn spec_width_sum(text: Seq<char>, behavior: UnknownGlyphBehavior) -> int
    decreases text.len(),
{
    if text.len() == 0 {
        0
    } else {
        spec_width_sum(text.drop_last(), behavior) + (match spec_placed_glyph(
            text.last(),
            behavior,
        ) {
            Some(g) => glyph_width(g),
            None => 0,
        })
    }
}

/// The width law: when every character of a text draws a glyph, the total
/// width is the sum of the glyph widths plus one spacing column between
/// each pair of neighbours; an empty text has width zero and no glyphs.
pub proof fn lemma_placement_width_law(text: Seq<char>, behavior: UnknownGlyphBehavior)
    requires
        forall|i: int| 0 <= i < text.len() ==> spec_placed_glyph(#[trigger] text[i], behavior) is Some,
    ensures
        spec_placement_glyphs(text, behavior).len() == text.len(),
        spec_placement_cursor(text, behavior) == spec_width_sum(text, behavior) + text.len(),
        text.len() == 0 ==> spec_placement_width(text, behavior) == 0,
        text.len() > 0 ==> spec_placement_width(text, behavior) == spec_width_sum(text, behavior)
            + text.len() - 1,
    decreases text.len(),
{
    if text.len() > 0 {
        assert(forall|i: int|
            0 <= i < text.drop_last().len() ==> #[trigger] text.drop_last()[i] == text[i]);
        lemma_placement_width_law(text.drop_last(), behavior);
        match spec_placed_glyph(text.last(), behavior) {
            Some(g) => {
                lemma_glyph_width_bounds(g);
            },
            None => {},
        }
    }
}

/// The position law: glyphs appear in text order, the first at column
/// zero, each later one starting one spacing column after its
/// predecessor ends — so every offset is the sum of the prior glyph
/// widths plus one gap per prior glyph — and the total width reaches
/// exactly to the last glyph's end; a placement without glyphs has
/// width zero.
pub proof fn lemma_placement_offsets(text: Seq<char>, behavior: UnknownGlyphBehavior)
    requires
        text.len() <= MAX_TEXT_LEN,
    ensures
        spec_placement_cursor(text, behavior) == (if spec_placement_glyphs(text, behavior).len()
            == 0 {
            0int
        } else {
            spec_placement_glyphs(text, behavior).last().x_offset + glyph_width(
                spec_placement_glyphs(text, behavior).last().glyph,
            ) + 1
        }),
        spec_placement_glyphs(text, behavior).len() > 0 ==> spec_placement_glyphs(
            text,
            behavior,
        )[0].x_offset == 0,
        forall|k: int|
            0 < k < spec_placement_glyphs(text, behavior).len() ==> (#[trigger] spec_placement_glyphs(
                text,
                behavior,
            )[k]).x_offset == spec_placement_glyphs(text, behavior)[k - 1].x_offset + glyph_width(
                spec_placement_glyphs(text, behavior)[k - 1].glyph,
            ) + 1,
        spec_placement_glyphs(text, behavior).len() > 0 ==> spec_placement_width(text, behavior)
            == spec_placement_glyphs(text, behavior).last().x_offset + glyph_width(
                spec_placement_glyphs(text, behavior).last().glyph,
            ),
        spec_placement_glyphs(text, behavior).len() == 0 ==> spec_placement_width(text, behavior)
            == 0,
    decreases text.len(),
{
    if text.len() > 0 {
        lemma_placement_offsets(text.drop_last(), behavior);
        lemma_placement_bounds(text.drop_last(), behavior);
        match spec_placed_glyph(text.last(), behavior) {
            Some(g) => {
                lemma_glyph_width_bounds(g);
            },
            None => {},
        }
    }
}

} // verus!
