//! The fixed linear-memory layout shared by the host, the loader, the
//! platform and the cart. Every party is compiled against these exact
//! offsets, so the schema is stated once here and proved collision-free.

use vstd::prelude::*;

verus! {

/// Width of the screen in pixels.
pub const SCREEN_WIDTH: usize = 320;
/// Height of the screen in pixels.
pub const SCREEN_HEIGHT: usize = 240;
/// Number of pixels on the screen.
pub const SCREEN_PIXELS: usize = 76800;

/// Linear memory is 4 pages of 64 KiB, not growable.
pub const MEMORY_PAGES: u64 = 4;
/// Total capacity of the linear memory in bytes.
pub const MEMORY_BYTES: usize = 262144;

/// Offset of the 4-byte little-endian signed millisecond counter.
pub const TIME_OFFSET: usize = 64;
/// Offset of the 4-byte little-endian gamepad bitmask.
pub const GAMEPAD_OFFSET: usize = 68;
/// Offset of the indexed framebuffer, one palette-index byte per pixel.
pub const FRAMEBUFFER_OFFSET: usize = 120;
/// Offset of the palette: 256 RGBA quads, right after the framebuffer.
pub const PALETTE_OFFSET: usize = 76920;
/// Size of the palette region in bytes.
pub const PALETTE_BYTES: usize = 1024;

/// The screen really is 320 x 240.
pub proof fn lemma_screen_size()
    ensures
        SCREEN_PIXELS == SCREEN_WIDTH * SCREEN_HEIGHT,
{
}

/// The four fixed regions are pairwise disjoint and lie inside the
/// memory's capacity: the time word, the gamepad word, the framebuffer
/// and the palette never overlap, so no party writing one region can
/// clobber another by construction.
pub proof fn lemma_regions_disjoint()
    ensures
        TIME_OFFSET + 4 <= GAMEPAD_OFFSET,
        GAMEPAD_OFFSET + 4 <= FRAMEBUFFER_OFFSET,
        FRAMEBUFFER_OFFSET + SCREEN_PIXELS <= PALETTE_OFFSET,
        PALETTE_OFFSET + PALETTE_BYTES <= MEMORY_BYTES,
{
}

} // verus!
