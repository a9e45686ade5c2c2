//! The gamepad bitmask the host writes into the shared memory each frame:
//! bit `i` is set exactly while logical input `i` is held. The fixed
//! assignment is bit 0 = up, 1 = down, 2 = left, 3 = right, 4..=7 = the
//! four action buttons, in that order.

use vstd::prelude::*;

verus! {

/// Pack the current state of the 8 logical inputs into the 32-bit
/// bitmask of the frame protocol: bit `i` is set if and only if input
/// `i` is held, and no other bit is ever set.
pub fn gamepad_mask(inputs: &[bool; 8]) -> (r: u32)
    ensures
        forall|i: int| 0 <= i < 8 ==> (((r >> i) & 1u32) == 1u32 <==> inputs@[i]),
        r >> 8 == 0u32,
{
    let b0: u32 = if inputs[0] { 1 } else { 0 };
    let b1: u32 = if inputs[1] { 2 } else { 0 };
    let b2: u32 = if inputs[2] { 4 } else { 0 };
    let b3: u32 = if inputs[3] { 8 } else { 0 };
    let b4: u32 = if inputs[4] { 16 } else { 0 };
    let b5: u32 = if inputs[5] { 32 } else { 0 };
    let b6: u32 = if inputs[6] { 64 } else { 0 };
    let b7: u32 = if inputs[7] { 128 } else { 0 };
    let r = b0 | b1 | b2 | b3 | b4 | b5 | b6 | b7;
    proof {
        lemma_mask_bits(b0, b1, b2, b3, b4, b5, b6, b7, r);
        assert forall|i: int| 0 <= i < 8 implies (((r >> i) & 1u32) == 1u32 <==> inputs@[i]) by {
            if i == 0 {
                assert((r >> 0u32) & 1u32 == 1u32 <==> b0 == 1);
            } else if i == 1 {
                assert((r >> 1u32) & 1u32 == 1u32 <==> b1 == 2);
            } else if i == 2 {
                assert((r >> 2u32) & 1u32 == 1u32 <==> b2 == 4);
            } else if i == 3 {
                assert((r >> 3u32) & 1u32 == 1u32 <==> b3 == 8);
            } else if i == 4 {
                assert((r >> 4u32) & 1u32 == 1u32 <==> b4 == 16);
            } else if i == 5 {
                assert((r >> 5u32) & 1u32 == 1u32 <==> b5 == 32);
            } else if i == 6 {
                assert((r >> 6u32) & 1u32 == 1u32 <==> b6 == 64);
            } else {
                assert((r >> 7u32) & 1u32 == 1u32 <==> b7 == 128);
            }
        }
    }
    r
}

/// Each bit of the packed mask reads back the summand it came from, and
/// the bits above the 8 inputs stay clear.
proof fn lemma_mask_bits(
    b0: u32,
    b1: u32,
    b2: u32,
    b3: u32,
    b4: u32,
    b5: u32,
    b6: u32,
    b7: u32,
    r: u32,
)
    requires
        b0 == 0 || b0 == 1,
        b1 == 0 || b1 == 2,
        b2 == 0 || b2 == 4,
        b3 == 0 || b3 == 8,
        b4 == 0 || b4 == 16,
        b5 == 0 || b5 == 32,
        b6 == 0 || b6 == 64,
        b7 == 0 || b7 == 128,
        r == b0 | b1 | b2 | b3 | b4 | b5 | b6 | b7,
    ensures
        (r >> 0u32) & 1u32 == 1u32 <==> b0 == 1,
        (r >> 1u32) & 1u32 == 1u32 <==> b1 == 2,
        (r >> 2u32) & 1u32 == 1u32 <==> b2 == 4,
        (r >> 3u32) & 1u32 == 1u32 <==> b3 == 8,
        (r >> 4u32) & 1u32 == 1u32 <==> b4 == 16,
        (r >> 5u32) & 1u32 == 1u32 <==> b5 == 32,
        (r >> 6u32) & 1u32 == 1u32 <==> b6 == 64,
        (r >> 7u32) & 1u32 == 1u32 <==> b7 == 128,
        r >> 8u32 == 0u32,
{
    assert((r >> 0u32) & 1u32 == 1u32 <==> b0 == 1) by (bit_vector)
        requires
            b0 == 0 || b0 == 1,
            b1 == 0 || b1 == 2,
            b2 == 0 || b2 == 4,
            b3 == 0 || b3 == 8,
            b4 == 0 || b4 == 16,
            b5 == 0 || b5 == 32,
            b6 == 0 || b6 == 64,
            b7 == 0 || b7 == 128,
            r == b0 | b1 | b2 | b3 | b4 | b5 | b6 | b7,
    ;
    assert((r >> 1u32) & 1u32 == 1u32 <==> b1 == 2) by (bit_vector)
        requires
            b0 == 0 || b0 == 1,
            b1 == 0 || b1 == 2,
            b2 == 0 || b2 == 4,
            b3 == 0 || b3 == 8,
            b4 == 0 || b4 == 16,
            b5 == 0 || b5 == 32,
            b6 == 0 || b6 == 64,
            b7 == 0 || b7 == 128,
            r == b0 | b1 | b2 | b3 | b4 | b5 | b6 | b7,
    ;
    assert((r >> 2u32) & 1u32 == 1u32 <==> b2 == 4) by (bit_vector)
        requires
            b0 == 0 || b0 == 1,
            b1 == 0 || b1 == 2,
            b2 == 0 || b2 == 4,
            b3 == 0 || b3 == 8,
            b4 == 0 || b4 == 16,
            b5 == 0 || b5 == 32,
            b6 == 0 || b6 == 64,
            b7 == 0 || b7 == 128,
            r == b0 | b1 | b2 | b3 | b4 | b5 | b6 | b7,
    ;
    assert((r >> 3u32) & 1u32 == 1u32 <==> b3 == 8) by (bit_vector)
        requires
            b0 == 0 || b0 == 1,
            b1 == 0 || b1 == 2,
            b2 == 0 || b2 == 4,
            b3 == 0 || b3 == 8,
            b4 == 0 || b4 == 16,
            b5 == 0 || b5 == 32,
            b6 == 0 || b6 == 64,
            b7 == 0 || b7 == 128,
            r == b0 | b1 | b2 | b3 | b4 | b5 | b6 | b7,
    ;
    assert((r >> 4u32) & 1u32 == 1u32 <==> b4 == 16) by (bit_vector)
        requires
            b0 == 0 || b0 == 1,
            b1 == 0 || b1 == 2,
            b2 == 0 || b2 == 4,
            b3 == 0 || b3 == 8,
            b4 == 0 || b4 == 16,
            b5 == 0 || b5 == 32,
            b6 == 0 || b6 == 64,
            b7 == 0 || b7 == 128,
            r == b0 | b1 | b2 | b3 | b4 | b5 | b6 | b7,
    ;
    assert((r >> 5u32) & 1u32 == 1u32 <==> b5 == 32) by (bit_vector)
        requires
            b0 == 0 || b0 == 1,
            b1 == 0 || b1 == 2,
            b2 == 0 || b2 == 4,
            b3 == 0 || b3 == 8,
            b4 == 0 || b4 == 16,
            b5 == 0 || b5 == 32,
            b6 == 0 || b6 == 64,
            b7 == 0 || b7 == 128,
            r == b0 | b1 | b2 | b3 | b4 | b5 | b6 | b7,
    ;
    assert((r >> 6u32) & 1u32 == 1u32 <==> b6 == 64) by (bit_vector)
        requires
            b0 == 0 || b0 == 1,
            b1 == 0 || b1 == 2,
            b2 == 0 || b2 == 4,
            b3 == 0 || b3 == 8,
            b4 == 0 || b4 == 16,
            b5 == 0 || b5 == 32,
            b6 == 0 || b6 == 64,
            b7 == 0 || b7 == 128,
            r == b0 | b1 | b2 | b3 | b4 | b5 | b6 | b7,
    ;
    assert((r >> 7u32) & 1u32 == 1u32 <==> b7 == 128) by (bit_vector)
        requires
            b0 == 0 || b0 == 1,
            b1 == 0 || b1 == 2,
            b2 == 0 || b2 == 4,
            b3 == 0 || b3 == 8,
            b4 == 0 || b4 == 16,
            b5 == 0 || b5 == 32,
            b6 == 0 || b6 == 64,
            b7 == 0 || b7 == 128,
            r == b0 | b1 | b2 | b3 | b4 | b5 | b6 | b7,
    ;
    assert(r >> 8u32 == 0u32) by (bit_vector)
        requires
            b0 == 0 || b0 == 1,
            b1 == 0 || b1 == 2,
            b2 == 0 || b2 == 4,
            b3 == 0 || b3 == 8,
            b4 == 0 || b4 == 16,
            b5 == 0 || b5 == 32,
            b6 == 0 || b6 == 64,
            b7 == 0 || b7 == 128,
            r == b0 | b1 | b2 | b3 | b4 | b5 | b6 | b7,
    ;
}

} // verus!
