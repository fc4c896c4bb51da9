//! Rendering core for a two-color 7x80 dot-matrix LED sign.
//!
//! The crate covers the full pipeline from a display command to the signals
//! that drive the matrix: glyph rasterization, animation offsets, frame
//! composition, content scheduling, and the scan-out plan for the physical
//! display. Transports and GPIO access live outside the crate; they hand
//! commands in and carry frames and scan actions out as plain values.

use vstd::prelude::*;

pub mod animations;
pub mod api;
pub mod current_content;
pub mod drive;
pub mod glyphs;
pub mod pipeline;
pub mod render;

verus! {

/// Width of the display in columns.
pub const SCREEN_WIDTH: usize = 80;

/// Height of the display in rows.
pub const SCREEN_HEIGHT: usize = 7;

/// One LED cell: two independently switchable channels.
#[derive(Debug, Clone, Copy, PartialEq, Eq, Structural)]
pub struct Pixel {
    pub red: Level,
    pub green: Level,
}

/// State of a single LED channel.
#[derive(Debug, Clone, Copy, PartialEq, Eq, Structural)]
pub enum Level {
    Off,
    On,
}

impl Pixel {
    /// The dark pixel: both channels off.
    pub fn off() -> (p: Pixel)
        ensures
            p == spec_pixel_off(),
    {
        Pixel { red: Level::Off, green: Level::Off }
    }

    /// Packs the two channels into one byte: red is bit 0, green is bit 1.
    pub fn serialize(&self) -> (b: u8)
        ensures
            b == spec_pixel_serialize(*self),
    {
        (if self.red == Level::On { 1u8 } else { 0u8 }) + (if self.green == Level::On {
            2u8
        } else {
            0u8
        })
    }

    /// Reads the two channels back from a byte written by `serialize`.
    pub fn deserialize(x: u8) -> (p: Pixel)
        ensures
            p == spec_pixel_deserialize(x),
    {
        Pixel {
            red: if x % 2 == 1 {
                Level::On
            } else {
                Level::Off
            },
            green: if (x / 2) % 2 == 1 {
                Level::On
            } else {
                Level::Off
            },
        }
    }
}

/// The dark pixel value.
pub open spec fn spec_pixel_off() -> Pixel {
    Pixel { red: Level::Off, green: Level::Off }
}

/// Byte encoding of a pixel: red in bit 0, green in bit 1.
pub open spec fn spec_pixel_serialize(p: Pixel) -> u8 {
    ((if p.red == Level::On { 1u8 } else { 0u8 }) + (if p.green == Level::On {
        2u8
    } else {
        0u8
    })) as u8
}

/// Pixel read back from its byte encoding.
pub open spec fn spec_pixel_deserialize(x: u8) -> Pixel {
    Pixel {
        red: if x % 2 == 1 {
            Level::On
        } else {
            Level::Off
        },
        green: if (x / 2) % 2 == 1 {
            Level::On
        } else {
            Level::Off
        },
    }
}

impl Default for Pixel {
    /// A fresh pixel is dark.
    fn default() -> (p: Pixel)
        ensures
            p == spec_pixel_off(),
    {
        Pixel { red: Level::Off, green: Level::Off }
    }
}

/// Round trip: a pixel survives its byte encoding unchanged.
pub proof fn lemma_pixel_serialize_round_trip(p: Pixel)
    ensures
        spec_pixel_deserialize(spec_pixel_serialize(p)) == p,
{
}

/// The frame buffer: a 7x80 grid of pixels, stored row-major.
#[derive(Debug)]
pub struct ScreenBuffer(pub Vec<Pixel>);

/// A well-formed grid: 7 rows of 80 pixels each.
pub open spec fn grid_wf(g: Seq<Seq<Pixel>>) -> bool {
    &&& g.len() == 7
    &&& forall|r: int| 0 <= r < 7 ==> (#[trigger] g[r]).len() == 80
}

/// The grid with one cell replaced when the coordinates are on screen,
/// and unchanged otherwise.
pub open spec fn spec_grid_set(g: Seq<Seq<Pixel>>, row: int, col: int, p: Pixel) -> Seq<
    Seq<Pixel>,
> {
    if 0 <= row < 7 && 0 <= col < 80 {
        g.update(row, g[row].update(col, p))
    } else {
        g
    }
}

/// The character a pixel prints as: `.` when dark, else the initial of
/// its color.
pub open spec fn spec_pixel_char(p: Pixel) -> char {
    if p == spec_pixel_off() {
        '.'
    } else if p.red == Level::On && p.green == Level::Off {
        'R'
    } else if p.red == Level::Off && p.green == Level::On {
        'G'
    } else {
        'O'
    }
}

/// The text form of a grid: seven lines of eighty cell characters, each
/// line closed by a newline.
pub open spec fn spec_buffer_text(g: Seq<Seq<Pixel>>) -> Seq<char> {
    Seq::new(
        567,
        |i: int|
            if i % 81 == 80 {
                '\n'
            } else {
                spec_pixel_char(g[i / 81][i % 81])
            },
    )
}

impl View for ScreenBuffer {
    type V = Seq<Seq<Pixel>>;

    open spec fn view(&self) -> Seq<Seq<Pixel>> {
        Seq::new(7, |r: int| Seq::new(80, |c: int| self.0@[r * 80 + c]))
    }
}

/// Distinct cells of the grid occupy distinct slots of the row-major store.
proof fn lemma_flat_index_unique(r1: int, c1: int, r2: int, c2: int)
    requires
        0 <= c1 < 80,
        0 <= c2 < 80,
        r1 * 80 + c1 == r2 * 80 + c2,
    ensures
        r1 == r2,
        c1 == c2,
{
    assert(r1 == r2 && c1 == c2) by (nonlinear_arith)
        requires
            0 <= c1 < 80,
            0 <= c2 < 80,
            r1 * 80 + c1 == r2 * 80 + c2,
    ;
}

impl ScreenBuffer {
    /// Whether the backing store holds exactly one pixel per cell.
    pub open spec fn wf(&self) -> bool {
        self.0@.len() == 560
    }

    /// A fresh buffer with every pixel off.
    pub fn new() -> (b: ScreenBuffer)
        ensures
            b.wf(),
            forall|r: int, c: int|
                0 <= r < 7 && 0 <= c < 80 ==> #[trigger] b@[r][c] == spec_pixel_off(),
    {
        let mut cells: Vec<Pixel> = Vec::new();
        let mut i: usize = 0;
        while i < 560
            invariant
                i <= 560,
                cells@.len() == i,
                forall|j: int| 0 <= j < i ==> cells@[j] == spec_pixel_off(),
            decreases 560 - i,
        {
            cells.push(Pixel { red: Level::Off, green: Level::Off });
            i = i + 1;
        }
        ScreenBuffer(cells)
    }

    /// Reads the pixel at a cell.
    pub fn get(&self, row: usize, col: usize) -> (p: Pixel)
        requires
            self.wf(),
            row < 7,
            col < 80,
        ensures
            p == self@[row as int][col as int],
    {
        self.0[row * 80 + col]
    }

    /// Writes a pixel when the coordinates are on screen and silently
    /// discards the write otherwise; off-screen writes are not errors.
    pub fn set_if_in_bounds(&mut self, row: i32, col: i32, pixel: Pixel)
        requires
            old(self).wf(),
        ensures
            final(self).wf(),
            final(self)@ == spec_grid_set(old(self)@, row as int, col as int, pixel),
    {
        if row < 0 || col < 0 || row >= 7 || col >= 80 {
            proof {
                assert(final(self)@ =~~= spec_grid_set(old(self)@, row as int, col as int, pixel));
            }
            return ;
        }
        let i: usize = (row as usize) * 80 + (col as usize);
        self.0.set(i, pixel);
        proof {
            let g0 = old(self)@;
            let g1 = self@;
            let target = spec_grid_set(g0, row as int, col as int, pixel);
            assert forall|r: int, c: int| 0 <= r < 7 && 0 <= c < 80 implies g1[r][c] == target[r][c] by {
                if r * 80 + c == (row as int) * 80 + (col as int) {
                    lemma_flat_index_unique(r, c, row as int, col as int);
                }
            }
            assert(g1 =~~= target);
        }
    }

    /// Packs the whole grid into one byte per pixel, row-major.
    pub fn serialize(&self) -> (out: Vec<u8>)
        requires
            self.wf(),
        ensures
            out@.len() == 560,
            forall|i: int|
                0 <= i < 560 ==> #[trigger] out@[i] == spec_pixel_serialize(self@[i / 80][i % 80]),
    {
        let mut out: Vec<u8> = Vec::new();
        let mut i: usize = 0;
        while i < 560
            invariant
                self.wf(),
                i <= 560,
                out@.len() == i,
                forall|j: int|
                    0 <= j < i ==> #[trigger] out@[j] == spec_pixel_serialize(
                        self@[j / 80][j % 80],
                    ),
            decreases 560 - i,
        {
            let row: usize = i / 80;
            let col: usize = i % 80;
            out.push(self.get(row, col).serialize());
            i = i + 1;
        }
        out
    }

    /// Draws the grid as text, one line per row: `.` for a dark cell and
    /// `R`, `G` or `O` for a lit one.
    pub fn to_text(&self) -> (s: String)
        requires
            self.wf(),
        ensures
            s@ == spec_buffer_text(self@),
    {
        proof {
            reveal_strlit(".");
            reveal_strlit("R");
            reveal_strlit("G");
            reveal_strlit("O");
            reveal_strlit("\n");
        }
        let mut s = String::new();
        let mut row: usize = 0;
        while row < 7
            invariant
                self.wf(),
                row <= 7,
                s@.len() == row * 81,
                forall|i: int|
                    0 <= i < s@.len() ==> #[trigger] s@[i] == spec_buffer_text(self@)[i],
            decreases 7 - row,
        {
            let mut col: usize = 0;
            while col < 80
                invariant
                    self.wf(),
                    row < 7,
                    col <= 80,
                    s@.len() == row * 81 + col,
                    forall|i: int|
                        0 <= i < s@.len() ==> #[trigger] s@[i] == spec_buffer_text(self@)[i],
                decreases 80 - col,
            {
                proof {
                    reveal_strlit(".");
                    reveal_strlit("R");
                    reveal_strlit("G");
                    reveal_strlit("O");
                    vstd::arithmetic::div_mod::lemma_fundamental_div_mod_converse(
                        row as int * 81 + col,
                        81,
                        row as int,
                        col as int,
                    );
                }
                let p = self.get(row, col);
                if p.red == Level::Off && p.green == Level::Off {
                    s.append(".");
                } else if p.red == Level::On && p.green == Level::Off {
                    s.append("R");
                } else if p.red == Level::Off && p.green == Level::On {
                    s.append("G");
                } else {
                    s.append("O");
                }
                col = col + 1;
            }
            proof {
                reveal_strlit("\n");
                vstd::arithmetic::div_mod::lemma_fundamental_div_mod_converse(
                    row as int * 81 + 80,
                    81,
                    row as int,
                    80,
                );
            }
            s.append("\n");
            row = row + 1;
        }
        s
    }

    /// Rebuilds a buffer from the byte form written by `serialize`.
    pub fn deserialize(s: &Vec<u8>) -> (b: ScreenBuffer)
        requires
            s@.len() == 560,
        ensures
            b.wf(),
            forall|r: int, c: int|
                0 <= r < 7 && 0 <= c < 80 ==> #[trigger] b@[r][c] == spec_pixel_deserialize(
                    s@[r * 80 + c],
                ),
    {
        let mut cells: Vec<Pixel> = Vec::new();
        let mut i: usize = 0;
        while i < 560
            invariant
                s@.len() == 560,
                i <= 560,
                cells@.len() == i,
                forall|j: int| 0 <= j < i ==> #[trigger] cells@[j] == spec_pixel_deserialize(s@[j]),
            decreases 560 - i,
        {
            cells.push(Pixel::deserialize(s[i]));
            i = i + 1;
        }
        let b = ScreenBuffer(cells);
        proof {
            assert forall|r: int, c: int| 0 <= r < 7 && 0 <= c < 80 implies #[trigger] b@[r][c]
                == spec_pixel_deserialize(s@[r * 80 + c]) by {
                assert(b@[r][c] == b.0@[r * 80 + c]);
            }
        }
        b
    }
}

} // verus!


