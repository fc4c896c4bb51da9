//! The bit-packed character bitmap.
//!
//! A glyph is an immutable bitmap of width 1 to 9 and fixed height 7,
//! packed into a single 64-bit word. A set top bit marks width 9 (whose
//! mask needs all 63 remaining bits); otherwise the top four bits hold
//! `width - 1` and the low bits hold the mask. The mask is row-major from
//! the top row down, and within a row the most significant bit is the
//! leftmost column.

use vstd::prelude::*;
use crate::{Pixel, ScreenBuffer};

verus! {

/// The bitmap shown in place of a character the font does not cover,
/// when the caller asks for substitution.
pub const PLACEHOLDER_GLYPH_DATA: u64 =
    0b0110_00000000000_1100011_1011101_1111101_1111011_1110111_1111111_1110111;

/// One character bitmap, packed into a word.
#[derive(Debug, Clone, Copy, PartialEq, Eq, Structural)]
pub struct Glyph {
    pub data: u64,
}

/// The width in columns that a packed word encodes.
pub open spec fn glyph_width(g: Glyph) -> int {
    if g.data >> 63 == 1 {
        9
    } else {
        ((g.data >> 60) & 7) + 1
    }
}

/// Whether the bitmap cell at (`row`, `col`) of the glyph is lit.
/// Row 0 is the top row; column 0 is the leftmost column.
pub open spec fn glyph_bit(g: Glyph, row: int, col: int) -> bool {
    (g.data >> (((6 - row) * glyph_width(g) + (glyph_width(g) - 1 - col)) as u64)) & 1 == 1
}

/// Whether a glyph stamped with its top-left corner at (`x`, `y`) lights
/// the screen cell (`r`, `c`).
pub open spec fn spec_glyph_covers(g: Glyph, x: int, y: int, r: int, c: int) -> bool {
    &&& 0 <= r - y < 7
    &&& 0 <= c - x < glyph_width(g)
    &&& glyph_bit(g, r - y, c - x)
}

/// Every packed word decodes to a width between 1 and 9.
pub proof fn lemma_glyph_width_bounds(g: Glyph)
    ensures
        1 <= glyph_width(g) <= 9,
{
    let d = g.data;
    assert((d >> 60) & 7 <= 7) by (bit_vector);
}

impl Glyph {
    /// Wraps a packed word.
    pub fn new(data: u64) -> (g: Glyph)
        ensures
            g == (Glyph { data }),
    {
        Glyph { data }
    }

    /// Decodes the width from the packed word.
    pub fn width(&self) -> (w: usize)
        ensures
            w == glyph_width(*self),
            1 <= w <= 9,
    {
        proof {
            lemma_glyph_width_bounds(*self);
        }
        if self.data >> 63 == 1 {
            9
        } else {
            (((self.data >> 60) & 7) + 1) as usize
        }
    }

    /// The fixed height of every glyph.
    pub fn height(&self) -> (h: usize)
        ensures
            h == 7,
    {
        7
    }

    /// Stamps the lit cells of one bitmap row onto the buffer, discarding
    /// writes that fall off screen.
    fn stamp_row(&self, buffer: &mut ScreenBuffer, pixel: Pixel, x: i32, y: i32, row: usize)
        requires
            old(buffer).wf(),
            row < 7,
        ensures
            final(buffer).wf(),
            forall|r: int, c: int|
                0 <= r < 7 && 0 <= c < 80 ==> #[trigger] final(buffer)@[r][c] == (if
                spec_glyph_covers(*self, x as int, y as int, r, c) && r - y == row {
                    pixel
                } else {
                    old(buffer)@[r][c]
                }),
    {
        let ghost g0 = buffer@;
        let width = self.width();
        let mut col: usize = 0;
        while col < width
            invariant
                buffer.wf(),
                col <= width,
                row < 7,
                width == glyph_width(*self),
                1 <= width <= 9,
                forall|r: int, c: int|
                    0 <= r < 7 && 0 <= c < 80 ==> #[trigger] buffer@[r][c] == (if
                    spec_glyph_covers(*self, x as int, y as int, r, c) && r - y == row && c - x
                        < col {
                        pixel
                    } else {
                        g0[r][c]
                    }),
            decreases width - col,
        {
            proof {
                assert((6 - row as int) * (width as int) <= 54) by (nonlinear_arith)
                    requires
                        row < 7,
                        width <= 9,
                ;
            }
            let shift: u64 = ((6 - row) * width + (width - 1 - col)) as u64;
            if (self.data >> shift) & 1 == 1 {
                let rr: i64 = y as i64 + row as i64;
                let cc: i64 = x as i64 + col as i64;
                if 0 <= rr && rr < 7 && 0 <= cc && cc < 80 {
                    buffer.set_if_in_bounds(rr as i32, cc as i32, pixel);
                }
            }
            col = col + 1;
        }
    }

    /// Stamps every lit cell of the glyph onto the buffer with its top-left
    /// corner at (`x`, `y`), discarding writes that fall off screen.
    pub fn copy_to_buffer(&self, buffer: &mut ScreenBuffer, pixel: Pixel, x: i32, y: i32)
        requires
            old(buffer).wf(),
        ensures
            final(buffer).wf(),
            forall|r: int, c: int|
                0 <= r < 7 && 0 <= c < 80 ==> #[trigger] final(buffer)@[r][c] == (if
                spec_glyph_covers(*self, x as int, y as int, r, c) {
                    pixel
                } else {
                    old(buffer)@[r][c]
                }),
    {
        let ghost g0 = buffer@;
        let mut row: usize = 0;
        while row < 7
            invariant
                buffer.wf(),
                row <= 7,
                forall|r: int, c: int|
                    0 <= r < 7 && 0 <= c < 80 ==> #[trigger] buffer@[r][c] == (if
                    spec_glyph_covers(*self, x as int, y as int, r, c) && r - y < row {
                        pixel
                    } else {
                        g0[r][c]
                    }),
            decreases 7 - row,
        {
            self.stamp_row(buffer, pixel, x, y, row);
            row = row + 1;
        }
    }
}

} // verus!
