//! Decoding of a packed true-color pixel value into its 8-bit channels.

use vstd::prelude::*;

verus! {

/// Red channel of a packed 0xRRGGBB pixel value: bits 16 to 23.
pub open spec fn red_of(pixel: u64) -> u64 {
    (pixel >> 16) & 0xff
}

/// Green channel of a packed 0xRRGGBB pixel value: bits 8 to 15.
pub open spec fn green_of(pixel: u64) -> u64 {
    (pixel >> 8) & 0xff
}

/// Blue channel of a packed 0xRRGGBB pixel value: bits 0 to 7.
pub open spec fn blue_of(pixel: u64) -> u64 {
    pixel & 0xff
}

/// Decodes a packed pixel as a 24-bit true-color value: bits 16 to 23
/// are red, bits 8 to 15 green, bits 0 to 7 blue; any higher bits are
/// ignored.
pub fn decode_pixel(pixel: u64) -> (out: (u8, u8, u8))
    ensures
        out.0 as u64 == red_of(pixel),
        out.1 as u64 == green_of(pixel),
        out.2 as u64 == blue_of(pixel),
{
    let r64: u64 = (pixel >> 16) & 0xff;
    let g64: u64 = (pixel >> 8) & 0xff;
    let b64: u64 = pixel & 0xff;
    assert(r64 < 256 && g64 < 256 && b64 < 256) by (bit_vector)
        requires
            r64 == (pixel >> 16) & 0xff,
            g64 == (pixel >> 8) & 0xff,
            b64 == pixel & 0xff,
    ;
    (r64 as u8, g64 as u8, b64 as u8)
}

/// Decoding ignores everything above the low 24 bits: two pixel values
/// that agree there decode alike.
pub proof fn lemma_decode_ignores_high_bits(p: u64, q: u64)
    requires
        p & 0xffffff == q & 0xffffff,
    ensures
        red_of(p) == red_of(q),
        green_of(p) == green_of(q),
        blue_of(p) == blue_of(q),
{
    assert((p & 0xffffff == q & 0xffffff) ==> ((p >> 16) & 0xff == (q >> 16) & 0xff && (p >> 8)
        & 0xff == (q >> 8) & 0xff && p & 0xff == q & 0xff)) by (bit_vector);
}

} // verus!
