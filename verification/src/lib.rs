//! Host core for a small fantasy console: loads a user-supplied compiled
//! module (a "cart"), canonicalizes it together with a bundled platform
//! module through a bundled loader module, links the result against a fixed
//! import namespace, and drives a per-frame protocol that exchanges time,
//! input and a paletted framebuffer through one shared linear memory.

use vstd::prelude::*;

mod bytes;
mod console;
mod engine;
mod error;
mod input;
mod layout;
mod pixels;

pub use bytes::{le_bytes_of, u32_le};
pub use console::{
    MATH_ACOS, MATH_ASIN, MATH_ATAN, MATH_ATAN2, MATH_COS, MATH_EXP, MATH_LOG, MATH_SIN, MATH_TAN,
    MicroW8, blank_screen, reserved_namespace_defined,
};
pub use error::Uw8Error;
pub use input::gamepad_mask;
pub use layout::{
    FRAMEBUFFER_OFFSET, GAMEPAD_OFFSET, MEMORY_BYTES, MEMORY_PAGES, PALETTE_BYTES, PALETTE_OFFSET,
    SCREEN_HEIGHT, SCREEN_PIXELS, SCREEN_WIDTH, TIME_OFFSET, lemma_regions_disjoint,
    lemma_screen_size,
};
pub use pixels::{decode_frame, decoded_image, decoded_pixel, lemma_decoded_pixels_opaque};

verus! {

} // verus!
