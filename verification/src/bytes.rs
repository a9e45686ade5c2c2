//! Little-endian encoding of the 32-bit words the host writes into the
//! shared memory each frame.

use vstd::prelude::*;

verus! {

/// The four bytes of `v` in little-endian order.
pub open spec fn le_bytes_of(v: u32) -> Seq<u8> {
    seq![
        (v & 0xff) as u8,
        ((v >> 8) & 0xff) as u8,
        ((v >> 16) & 0xff) as u8,
        ((v >> 24) & 0xff) as u8,
    ]
}

/// Encode a 32-bit word as its four little-endian bytes.
pub fn u32_le(v: u32) -> (r: Vec<u8>)
    ensures
        r@ == le_bytes_of(v),
{
    let mut r: Vec<u8> = Vec::new();
    r.push((v & 0xff) as u8);
    r.push(((v >> 8) & 0xff) as u8);
    r.push(((v >> 16) & 0xff) as u8);
    r.push(((v >> 24) & 0xff) as u8);
    proof {
        assert(r@ =~= le_bytes_of(v));
    }
    r
}

} // verus!
