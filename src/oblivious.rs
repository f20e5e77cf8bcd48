//! Branch-free selection: every choice between two secret values is made by
//! masking, so the same instructions run whichever value is kept.

use vstd::prelude::*;

verus! {

/// `a` where `p` holds, else `b`, computed by mask-and-blend.
pub fn select_u64(p: bool, a: u64, b: u64) -> (r: u64)
    ensures
        r == if p { a } else { b },
{
    let bit: u64 = p as u64;
    let mask: u64 = bit * 0xffff_ffff_ffff_ffffu64;
    assert(mask == 0xffff_ffff_ffff_ffffu64 ==> (a & mask) | (b & !mask) == a) by (bit_vector);
    assert(mask == 0u64 ==> (a & mask) | (b & !mask) == b) by (bit_vector);
    (a & mask) | (b & !mask)
}

/// Conjunction of two secret flags; both are always read.
pub fn both(x: bool, y: bool) -> (r: bool)
    ensures
        r == (x && y),
{
    let xb: u8 = x as u8;
    let yb: u8 = y as u8;
    assert(xb <= 1 && yb <= 1 ==> ((xb & yb) == 1u8 <==> (xb == 1u8 && yb == 1u8))) by (bit_vector);
    (xb & yb) == 1u8
}

} // verus!
