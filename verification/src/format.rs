//! Byte layout of the decoder's frame stream.
//!
//! Each frame arrives as a short textual header followed by `width * height`
//! raw RGB samples, three bytes per pixel, row-major and unpadded. The header
//! has the fixed shape `P6\n{w} {h}\n255\n`, so its length is nine bytes plus
//! the decimal digits of the two dimensions. Frame boundaries are predicted
//! from these lengths, never parsed from the stream.

use vstd::prelude::*;
use vstd::arithmetic::div_mod::lemma_fundamental_div_mod;

verus! {

/// Number of decimal digits of `n`, counting one digit for zero.
pub open spec fn spec_digit_count(n: nat) -> nat
    decreases n,
{
    if n < 10 {
        1
    } else {
        1 + spec_digit_count(n / 10)
    }
}

/// Ten to the power `k`.
pub open spec fn pow10(k: nat) -> nat
    decreases k,
{
    if k == 0 {
        1
    } else {
        10 * pow10((k - 1) as nat)
    }
}

proof fn lemma_digit_count_below_pow10(n: nat, k: nat)
    requires
        1 <= k,
        n < pow10(k),
    ensures
        spec_digit_count(n) <= k,
    decreases k,
{
    if n < 10 {
    } else {
        assert(pow10(k) == 10 * pow10((k - 1) as nat));
        lemma_fundamental_div_mod(n as int, 10);
        assert(n / 10 < pow10((k - 1) as nat));
        lemma_digit_count_below_pow10(n / 10, (k - 1) as nat);
    }
}

proof fn lemma_digit_count_max(n: nat)
    requires
        n <= usize::MAX,
    ensures
        spec_digit_count(n) <= 20,
{
    reveal_with_fuel(pow10, 21);
    assert(pow10(20) == 100_000_000_000_000_000_000);
    lemma_digit_count_below_pow10(n, 20);
}

/// Number of decimal digits in the usual textual rendering of `n`.
pub fn decimal_digit_count(n: usize) -> (d: usize)
    ensures
        d == spec_digit_count(n as nat),
        1 <= d <= 20,
    decreases n,
{
    if n < 10 {
        1
    } else {
        let rest = decimal_digit_count(n / 10);
        proof {
            lemma_digit_count_max(n as nat);
        }
        rest + 1
    }
}

/// Length in bytes of the textual header preceding each frame's pixel data.
pub open spec fn spec_header_length(w: nat, h: nat) -> nat {
    9 + spec_digit_count(w) + spec_digit_count(h)
}

/// Total length in bytes of one frame on the wire: header plus pixel data.
pub open spec fn spec_frame_byte_length(w: nat, h: nat) -> nat {
    spec_header_length(w, h) + w * h * 3
}

/// Predicted length of the fixed-format textual header for the given
/// dimensions.
pub fn header_length(width: usize, height: usize) -> (len: usize)
    ensures
        len == spec_header_length(width as nat, height as nat),
        11 <= len <= 49,
{
    9 + decimal_digit_count(width) + decimal_digit_count(height)
}

/// Total number of bytes one frame occupies in the stream.
pub fn frame_byte_length(width: usize, height: usize) -> (len: usize)
    requires
        spec_frame_byte_length(width as nat, height as nat) <= usize::MAX,
    ensures
        len == spec_frame_byte_length(width as nat, height as nat),
{
    let hl = header_length(width, height);
    hl + width * height * 3
}

/// A frame is exactly one header followed by three bytes per pixel: the two
/// length predictions decompose additively for every pair of dimensions.
pub proof fn lemma_frame_byte_length_decomposes(w: nat, h: nat)
    ensures
        spec_frame_byte_length(w, h) == spec_header_length(w, h) + w * h * 3,
{
}

} // verus!
