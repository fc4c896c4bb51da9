//! The frame renderer: composes rasterized glyphs, an animation offset
//! and a color into one frame.

use vstd::prelude::*;
use crate::{Pixel, ScreenBuffer, spec_pixel_off};
use crate::animations::{get_global_offset, lemma_global_offset_bounds, spec_global_offset_x,
    spec_global_offset_y};
use crate::api::{Alignment, Animation, Color, Content, spec_color_pixel};
use crate::glyphs::{RenderedGlyph, RenderedGlyphs};
use crate::glyphs::glyph::spec_glyph_covers;

verus! {

/// Whether any of the first `n` placed glyphs, shifted by the frame
/// offset, lights the screen cell (`r`, `c`).
pub open spec fn spec_cell_lit(
    glyphs: Seq<RenderedGlyph>,
    n: int,
    offx: int,
    offy: int,
    r: int,
    c: int,
) -> bool {
    exists|k: int|
        0 <= k < n && spec_glyph_covers(
            (#[trigger] glyphs[k]).glyph,
            glyphs[k].x_offset + offx,
            offy,
            r,
            c,
        )
}

/// The frame a content step shows at a point in time: every cell covered
/// by a lit glyph bit carries the step's color, every other cell is off.
pub open spec fn spec_render_grid(
    color: Color,
    animation: Animation,
    align: Alignment,
    glyphs: Seq<RenderedGlyph>,
    width: int,
    duration: Option<u64>,
    elapsed: u64,
) -> Seq<Seq<Pixel>> {
    let offx = spec_global_offset_x(animation, align, width, duration, elapsed);
    let offy = spec_global_offset_y(animation, align, width, duration, elapsed);
    Seq::new(
        7,
        |r: int|
            Seq::new(
                80,
                |c: int|
                    if spec_cell_lit(glyphs, glyphs.len() as int, offx, offy, r, c) {
                        spec_color_pixel(color)
                    } else {
                        spec_pixel_off()
                    },
            ),
    )
}

/// Renders one frame of a content step: computes the animation offset for
/// the elapsed time, then stamps every glyph in the step's color onto a
/// dark buffer, discarding what falls off screen.
pub fn render(
    content: &Content,
    rendered_glyphs: &RenderedGlyphs,
    duration: Option<u64>,
    time_elapsed: u64,
) -> (buffer: ScreenBuffer)
    requires
        rendered_glyphs.wf(),
    ensures
        buffer.wf(),
        buffer@ == spec_render_grid(
            content.color,
            content.animation,
            content.align,
            rendered_glyphs.glyphs@,
            rendered_glyphs.width as int,
            duration,
            time_elapsed,
        ),
{
    let offset = get_global_offset(
        &content.animation,
        content.align,
        rendered_glyphs.width,
        duration,
        time_elapsed,
    );
    proof {
        lemma_global_offset_bounds(
            content.animation,
            content.align,
            rendered_glyphs.width as int,
            duration,
            time_elapsed,
        );
    }
    let pixel = content.color.to_pixel();
    let mut buffer = ScreenBuffer::new();
    let ghost offx = offset.x as int;
    let ghost offy = offset.y as int;
    let ghost glyphs = rendered_glyphs.glyphs@;
    proof {
        assert forall|r: int, c: int| 0 <= r < 7 && 0 <= c < 80 implies #[trigger] buffer@[r][c]
            == (if spec_cell_lit(glyphs, 0, offx, offy, r, c) {
            spec_color_pixel(content.color)
        } else {
            spec_pixel_off()
        }) by {}
    }
    let n = rendered_glyphs.glyphs.len();
    let mut k: usize = 0;
    while k < n
        invariant
            buffer.wf(),
            k <= n,
            n == glyphs.len(),
            glyphs == rendered_glyphs.glyphs@,
            rendered_glyphs.wf(),
            -(rendered_glyphs.width as int + 80) <= offx <= 80,
            -7 <= offy <= 7,
            offset.x as int == offx,
            offset.y as int == offy,
            pixel == spec_color_pixel(content.color),
            forall|r: int, c: int|
                0 <= r < 7 && 0 <= c < 80 ==> #[trigger] buffer@[r][c] == (if spec_cell_lit(
                    glyphs,
                    k as int,
                    offx,
                    offy,
                    r,
                    c,
                ) {
                    spec_color_pixel(content.color)
                } else {
                    spec_pixel_off()
                }),
        decreases n - k,
    {
        let rendered_glyph = &rendered_glyphs.glyphs[k];
        let glyph = rendered_glyph.glyph;
        proof {
            assert(glyphs[k as int].x_offset + crate::glyphs::glyph::glyph_width(
                glyphs[k as int].glyph,
            ) <= rendered_glyphs.width);
        }
        let start_col: i64 = rendered_glyph.x_offset as i64 + offset.x as i64;
        let start_row: i32 = offset.y;
        glyph.copy_to_buffer(&mut buffer, pixel, start_col as i32, start_row);
        proof {
            assert forall|r: int, c: int| 0 <= r < 7 && 0 <= c < 80 implies #[trigger] buffer@[r][c]
                == (if spec_cell_lit(glyphs, k + 1, offx, offy, r, c) {
                spec_color_pixel(content.color)
            } else {
                spec_pixel_off()
            }) by {
                if spec_glyph_covers(
                    glyphs[k as int].glyph,
                    glyphs[k as int].x_offset + offx,
                    offy,
                    r,
                    c,
                ) {
                    assert(spec_cell_lit(glyphs, k + 1, offx, offy, r, c));
                } else {
                    if spec_cell_lit(glyphs, k + 1, offx, offy, r, c) {
                        let j = choose|j: int|
                            0 <= j < k + 1 && spec_glyph_covers(
                                (#[trigger] glyphs[j]).glyph,
                                glyphs[j].x_offset + offx,
                                offy,
                                r,
                                c,
                            );
                        assert(j != k);
                        assert(spec_cell_lit(glyphs, k as int, offx, offy, r, c));
                    }
                    if spec_cell_lit(glyphs, k as int, offx, offy, r, c) {
                        let j = choose|j: int|
                            0 <= j < k && spec_glyph_covers(
                                (#[trigger] glyphs[j]).glyph,
                                glyphs[j].x_offset + offx,
                                offy,
                                r,
                                c,
                            );
                        assert(spec_cell_lit(glyphs, k + 1, offx, offy, r, c));
                    }
                }
            }
        }
        k = k + 1;
    }
    proof {
        let target = spec_render_grid(
            content.color,
            content.animation,
            content.align,
            glyphs,
            rendered_glyphs.width as int,
            duration,
            time_elapsed,
        );
        assert(buffer@ =~~= target);
    }
    buffer
}

} // verus!
