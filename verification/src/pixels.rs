//! Decoding of the guest's indexed framebuffer: one palette-index byte per
//! pixel is turned into an opaque 8-bit-per-channel pixel by looking the
//! index up in the 256-entry RGBA palette that follows the framebuffer.

use crate::layout::{PALETTE_BYTES, SCREEN_PIXELS};
use vstd::prelude::*;

verus! {

/// The displayable pixel for position `i`: fully opaque, with the red,
/// green and blue channels copied in order from the palette entry that
/// the framebuffer byte at `i` selects.
pub open spec fn decoded_pixel(fb: Seq<u8>, pal: Seq<u8>, i: int) -> u32
    recommends
        0 <= i < fb.len(),
        pal.len() >= PALETTE_BYTES,
{
    let e = 4 * (fb[i] as int);
    0xff00_0000u32 | ((pal[e] as u32) << 16) | ((pal[e + 1] as u32) << 8) | (pal[e + 2] as u32)
}

/// The whole decoded screen for a framebuffer and a palette.
pub open spec fn decoded_image(fb: Seq<u8>, pal: Seq<u8>) -> Seq<u32> {
    Seq::new(SCREEN_PIXELS as nat, |i: int| decoded_pixel(fb, pal, i))
}

/// Every decoded pixel is fully opaque: its alpha byte is 0xff, whatever
/// the framebuffer and the palette hold.
pub proof fn lemma_decoded_pixels_opaque(fb: Seq<u8>, pal: Seq<u8>, i: int)
    requires
        0 <= i < fb.len(),
        pal.len() >= PALETTE_BYTES,
    ensures
        decoded_pixel(fb, pal, i) >> 24 == 0xff,
{
    let a = pal[4 * (fb[i] as int)] as u32;
    let b = pal[4 * (fb[i] as int) + 1] as u32;
    let c = pal[4 * (fb[i] as int) + 2] as u32;
    assert(a < 256 && b < 256 && c < 256);
    assert((0xff00_0000u32 | (a << 16) | (b << 8) | c) >> 24 == 0xff) by (bit_vector)
        requires
            a < 256 && b < 256 && c < 256,
    ;
}

/// Decode the indexed framebuffer against the palette.
pub fn decode_frame(fb: &[u8], pal: &[u8]) -> (r: Vec<u32>)
    requires
        fb@.len() == SCREEN_PIXELS,
        pal@.len() == PALETTE_BYTES,
    ensures
        r@ == decoded_image(fb@, pal@),
{
    let mut r: Vec<u32> = Vec::new();
    let mut i: usize = 0;
    while i < SCREEN_PIXELS
        invariant
            i <= SCREEN_PIXELS,
            fb@.len() == SCREEN_PIXELS,
            pal@.len() == PALETTE_BYTES,
            r@.len() == i,
            forall|k: int| 0 <= k < i ==> r@[k] == decoded_pixel(fb@, pal@, k),
        decreases SCREEN_PIXELS - i,
    {
        let e = 4 * (fb[i] as usize);
        let pix = 0xff00_0000u32
            | ((pal[e] as u32) << 16u32)
            | ((pal[e + 1] as u32) << 8u32)
            | (pal[e + 2] as u32);
        r.push(pix);
        i = i + 1;
    }
    proof {
        assert(r@ =~= decoded_image(fb@, pal@));
    }
    r
}

} // verus!
