//! Mapping a pixel to one glyph of a brightness-ordered ramp.
//!
//! Brightness is the BT.709-style luma `0.2126*r + 0.7152*g + 0.0722*b`.
//! To stay within integer arithmetic the library carries it scaled by
//! 10000: a channel value of 255 on all three channels gives the maximal
//! scaled luma 2550000. The glyph index is the proportional quantization
//! `(RAMP_LENGTH - 1) * luma / max_luma`, clamped into the ramp.

use vstd::prelude::*;

verus! {

/// Number of glyphs in the ramp, darkest to brightest.
pub const RAMP_LENGTH: usize = 11;

/// Scaled luma of a pure white pixel; the top of the brightness range.
pub const MAX_LUMA: u32 = 2_550_000;

/// The glyph ramp, darkest to brightest.
pub open spec fn spec_ramp() -> Seq<u8> {
    seq![32u8, 32u8, 46u8, 58u8, 33u8, 43u8, 42u8, 101u8, 36u8, 64u8, 56u8]
}

/// Scaled luma of a pixel: the BT.709 weights times 10000.
pub open spec fn spec_brightness(r: u8, g: u8, b: u8) -> int {
    2126 * r + 7152 * g + 722 * b
}

/// Glyph index for a scaled luma: proportional quantization into the ramp,
/// clamped to the last glyph.
pub open spec fn spec_classify_index(luma: int) -> int {
    let i = (10 * luma) / (MAX_LUMA as int);
    if i > 10 {
        10
    } else {
        i
    }
}

/// Glyph chosen for one pixel.
pub open spec fn spec_pixel_glyph(r: u8, g: u8, b: u8) -> u8 {
    spec_ramp()[spec_classify_index(spec_brightness(r, g, b))]
}

/// Glyph of the ramp at `i`.
pub fn ramp_glyph(i: usize) -> (glyph: u8)
    requires
        i < RAMP_LENGTH,
    ensures
        glyph == spec_ramp()[i as int],
{
    if i <= 1 {
        32u8
    } else if i == 2 {
        46u8
    } else if i == 3 {
        58u8
    } else if i == 4 {
        33u8
    } else if i == 5 {
        43u8
    } else if i == 6 {
        42u8
    } else if i == 7 {
        101u8
    } else if i == 8 {
        36u8
    } else if i == 9 {
        64u8
    } else {
        56u8
    }
}

/// Scaled luma of a pixel.
pub fn rgb_to_brightness(r: u8, g: u8, b: u8) -> (luma: u32)
    ensures
        luma == spec_brightness(r, g, b),
        luma <= MAX_LUMA,
{
    2126 * (r as u32) + 7152 * (g as u32) + 722 * (b as u32)
}

/// Glyph for a scaled luma.
pub fn brightness_to_ascii(luma: u32) -> (glyph: u8)
    ensures
        glyph == spec_ramp()[spec_classify_index(luma as int)],
{
    let scaled: u64 = 10 * (luma as u64);
    let quotient: u64 = scaled / (MAX_LUMA as u64);
    let idx: usize = if quotient > 10 {
        10
    } else {
        quotient as usize
    };
    ramp_glyph(idx)
}

/// Glyph for one pixel.
pub fn pixel_to_ascii(r: u8, g: u8, b: u8) -> (glyph: u8)
    ensures
        glyph == spec_pixel_glyph(r, g, b),
{
    let luma = rgb_to_brightness(r, g, b);
    brightness_to_ascii(luma)
}

/// Classification always lands inside the ramp: for every pixel the glyph
/// index lies in `[0, RAMP_LENGTH - 1]`; a black pixel selects the darkest
/// glyph and a white pixel the brightest.
pub proof fn lemma_classify_in_ramp(r: u8, g: u8, b: u8)
    ensures
        0 <= spec_classify_index(spec_brightness(r, g, b)) < RAMP_LENGTH,
        spec_brightness(0, 0, 0) == 0,
        spec_classify_index(0) == 0,
        spec_pixel_glyph(0, 0, 0) == spec_ramp()[0],
        spec_brightness(255, 255, 255) == MAX_LUMA,
        spec_classify_index(MAX_LUMA as int) == RAMP_LENGTH - 1,
        spec_pixel_glyph(255, 255, 255) == spec_ramp()[RAMP_LENGTH - 1],
{
}

/// Brightness is monotonically non-decreasing in each channel while the
/// other channels are held fixed; stated for any pointwise-ordered pair.
pub proof fn lemma_brightness_monotone(r1: u8, g1: u8, b1: u8, r2: u8, g2: u8, b2: u8)
    requires
        r1 <= r2,
        g1 <= g2,
        b1 <= b2,
    ensures
        spec_brightness(r1, g1, b1) <= spec_brightness(r2, g2, b2),
{
}

} // verus!
