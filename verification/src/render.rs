//! Building the character grid for one frame.
//!
//! The renderer walks a header-stripped pixel region row by row, classifies
//! each RGB sample into a glyph, and ends every row with a newline so the
//! grid stays aligned even when the terminal is wider than the frame. The
//! caller writes the grid to the terminal after a cursor reset; nothing
//! here does I/O.

use vstd::prelude::*;
use crate::classify::{pixel_to_ascii, spec_pixel_glyph, spec_ramp};

verus! {

/// Row separator appended after each row of glyphs.
pub const NEWLINE: u8 = 10;

/// Byte offset of pixel `(x, y)`'s red sample inside a header-stripped,
/// row-major pixel region of width `w`: three bytes per pixel, no padding.
pub open spec fn spec_sample_offset(w: int, x: int, y: int) -> int {
    3 * (y * w + x)
}

/// Glyph chosen for the pixel at `(x, y)`.
pub open spec fn spec_glyph_at(pixels: Seq<u8>, w: int, x: int, y: int) -> u8 {
    spec_pixel_glyph(
        pixels[spec_sample_offset(w, x, y)],
        pixels[spec_sample_offset(w, x, y) + 1],
        pixels[spec_sample_offset(w, x, y) + 2],
    )
}

/// Index of cell `(x, y)` in the rendered grid, whose rows hold `w` glyphs
/// followed by one newline; `x == w` addresses the newline itself.
pub open spec fn spec_cell_index(w: int, x: int, y: int) -> int {
    y * (w + 1) + x
}

/// Renders one frame's pixel region as a grid of glyphs: `height` rows of
/// `width` glyphs, each row ended by a newline. The output is pinned cell
/// by cell: position `(x, y)` holds the glyph classified from the RGB
/// sample at byte offset `3 * (y * width + x)`.
pub fn render(pixel_bytes: &Vec<u8>, width: usize, height: usize) -> (out: Vec<u8>)
    requires
        1 <= width,
        1 <= height,
        width * height * 3 <= pixel_bytes@.len(),
    ensures
        out@.len() == height * (width + 1),
        forall|x: int, y: int|
            0 <= x < width && 0 <= y < height ==> out@[spec_cell_index(width as int, x, y)]
                == #[trigger] spec_glyph_at(pixel_bytes@, width as int, x, y),
        forall|y: int|
            0 <= y < height ==> out@[#[trigger] spec_cell_index(width as int, width as int, y)]
                == NEWLINE,
{
    let total: usize = pixel_bytes.len();
    let mut out: Vec<u8> = Vec::new();
    let mut y: usize = 0;
    while y < height
        invariant
            1 <= width,
            1 <= height,
            width * height * 3 <= pixel_bytes@.len(),
            pixel_bytes@.len() == total,
            y <= height,
            out@.len() == y * (width + 1),
            forall|xx: int, yy: int|
                0 <= xx < width && 0 <= yy < y ==> out@[spec_cell_index(width as int, xx, yy)]
                    == #[trigger] spec_glyph_at(pixel_bytes@, width as int, xx, yy),
            forall|yy: int|
                0 <= yy < y ==> out@[#[trigger] spec_cell_index(
                    width as int,
                    width as int,
                    yy,
                )] == NEWLINE,
        decreases height - y,
    {
        proof {
            assert(0 <= y * width * 3 && y * width * 3 + width * 3 <= width * height * 3)
                by (nonlinear_arith)
                requires
                    0 <= y,
                    y < height,
                    0 <= width,
            ;
        }
        let row_base: usize = y * width * 3;
        let mut x: usize = 0;
        while x < width
            invariant
                1 <= width,
                1 <= height,
                width * height * 3 <= pixel_bytes@.len(),
                pixel_bytes@.len() == total,
                y < height,
                x <= width,
                row_base == y * width * 3,
                row_base + width * 3 <= width * height * 3,
                out@.len() == y * (width + 1) + x,
                forall|xx: int, yy: int|
                    0 <= xx < width && 0 <= yy < y ==> out@[spec_cell_index(width as int, xx, yy)]
                        == #[trigger] spec_glyph_at(pixel_bytes@, width as int, xx, yy),
                forall|yy: int|
                    0 <= yy < y ==> out@[#[trigger] spec_cell_index(
                        width as int,
                        width as int,
                        yy,
                    )] == NEWLINE,
                forall|xx: int|
                    0 <= xx < x ==> out@[spec_cell_index(width as int, xx, y as int)]
                        == #[trigger] spec_glyph_at(pixel_bytes@, width as int, xx, y as int),
            decreases width - x,
        {
            let off: usize = row_base + x * 3;
            let r = pixel_bytes[off];
            let g = pixel_bytes[off + 1];
            let b = pixel_bytes[off + 2];
            let glyph = pixel_to_ascii(r, g, b);
            out.push(glyph);
            proof {
                assert(spec_sample_offset(width as int, x as int, y as int) == off)
                    by (nonlinear_arith)
                    requires
                        off == y * width * 3 + x * 3,
                ;
                assert(out@[spec_cell_index(width as int, x as int, y as int)] == glyph);
                assert forall|xx: int, yy: int| 0 <= xx < width && 0 <= yy < y implies out@[
                    spec_cell_index(width as int, xx, yy)
                ] == #[trigger] spec_glyph_at(pixel_bytes@, width as int, xx, yy) by {
                    assert(yy * (width + 1) + xx < y * (width + 1)) by (nonlinear_arith)
                        requires
                            0 <= yy,
                            yy < y,
                            0 <= xx,
                            xx <= width,
                    ;
                }
                assert forall|yy: int| 0 <= yy < y implies out@[#[trigger] spec_cell_index(
                    width as int,
                    width as int,
                    yy,
                )] == NEWLINE by {
                    assert(yy * (width + 1) + width < y * (width + 1)) by (nonlinear_arith)
                        requires
                            0 <= yy,
                            yy < y,
                            0 <= width,
                    ;
                }
            }
            x += 1;
        }
        out.push(NEWLINE);
        proof {
            assert((y + 1) * (width + 1) == y * (width + 1) + width + 1) by (nonlinear_arith);
            assert(out@[spec_cell_index(width as int, width as int, y as int)] == NEWLINE);
            assert forall|xx: int, yy: int| 0 <= xx < width && 0 <= yy < y + 1 implies out@[
                spec_cell_index(width as int, xx, yy)
            ] == #[trigger] spec_glyph_at(pixel_bytes@, width as int, xx, yy) by {
                if yy < y {
                    assert(yy * (width + 1) + xx < y * (width + 1)) by (nonlinear_arith)
                        requires
                            0 <= yy,
                            yy < y,
                            0 <= xx,
                            xx <= width,
                    ;
                }
            }
            assert forall|yy: int| 0 <= yy < y + 1 implies out@[#[trigger] spec_cell_index(
                width as int,
                width as int,
                yy,
            )] == NEWLINE by {
                if yy < y {
                    assert(yy * (width + 1) + width < y * (width + 1)) by (nonlinear_arith)
                        requires
                            0 <= yy,
                            yy < y,
                            0 <= width,
                    ;
                }
            }
        }
        y += 1;
    }
    out
}

/// An all-black pixel region renders as rows made only of the darkest
/// glyph: every cell of the grid holds the first glyph of the ramp (and
/// every row still ends with its newline, by the contract of `render`).
pub proof fn lemma_render_all_black(pixels: Seq<u8>, w: int, h: int)
    requires
        1 <= w,
        1 <= h,
        w * h * 3 <= pixels.len(),
        forall|i: int| 0 <= i < pixels.len() ==> pixels[i] == 0,
    ensures
        forall|x: int, y: int|
            0 <= x < w && 0 <= y < h ==> #[trigger] spec_glyph_at(pixels, w, x, y)
                == spec_ramp()[0],
{
    assert forall|x: int, y: int| 0 <= x < w && 0 <= y < h implies #[trigger] spec_glyph_at(
        pixels,
        w,
        x,
        y,
    ) == spec_ramp()[0] by {
        assert(0 <= 3 * (y * w + x) && 3 * (y * w + x) + 2 < w * h * 3) by (nonlinear_arith)
            requires
                0 <= x,
                x < w,
                0 <= y,
                y < h,
        ;
    }
}

} // verus!
