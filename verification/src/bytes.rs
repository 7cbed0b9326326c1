//! Little-endian encoding of 32-bit words, as instructions store their immediates, and the
//! byte sequences that a trampoline is built from.

use vstd::prelude::*;
use crate::error::HookError;

verus! {

/// The four little-endian bytes of `v`.
pub open spec fn le_u32(v: u32) -> Seq<u8> {
    seq![
        (v & 0xFFu32) as u8,
        ((v >> 8u32) & 0xFFu32) as u8,
        ((v >> 16u32) & 0xFFu32) as u8,
        ((v >> 24u32) & 0xFFu32) as u8,
    ]
}

/// The 32-bit word whose little-endian bytes are `b0 b1 b2 b3`.
pub open spec fn u32_from_le(b0: u8, b1: u8, b2: u8, b3: u8) -> u32 {
    (b0 as u32) | ((b1 as u32) << 8u32) | ((b2 as u32) << 16u32) | ((b3 as u32) << 24u32)
}

/// The 32-bit word stored little-endian at `s[i..i + 4]`.
pub open spec fn u32_at(s: Seq<u8>, i: int) -> u32 {
    u32_from_le(s[i], s[i + 1], s[i + 2], s[i + 3])
}

/// Reading back the little-endian bytes of a word gives the word.
pub proof fn lemma_le_u32_roundtrip(v: u32)
    ensures
        u32_from_le(le_u32(v)[0], le_u32(v)[1], le_u32(v)[2], le_u32(v)[3]) == v,
        u32_at(le_u32(v), 0) == v,
{
    let b0 = (v & 0xFFu32) as u8;
    let b1 = ((v >> 8u32) & 0xFFu32) as u8;
    let b2 = ((v >> 16u32) & 0xFFu32) as u8;
    let b3 = ((v >> 24u32) & 0xFFu32) as u8;
    assert((b0 as u32) | ((b1 as u32) << 8u32) | ((b2 as u32) << 16u32) | ((b3 as u32) << 24u32)
        == v) by (bit_vector)
        requires
            b0 == (v & 0xFFu32) as u8,
            b1 == ((v >> 8u32) & 0xFFu32) as u8,
            b2 == ((v >> 16u32) & 0xFFu32) as u8,
            b3 == ((v >> 24u32) & 0xFFu32) as u8,
    ;
}

/// An i32 survives the round trip through its two's-complement bit pattern.
pub proof fn lemma_i32_bits_roundtrip(x: i32)
    ensures
        (x as u32) as i32 == x,
{
    assert((x as u32) as i32 == x) by (bit_vector);
}

/// Appends the little-endian bytes of `v` to `out`.
pub fn push_le_u32(out: &mut Vec<u8>, v: u32)
    ensures
        final(out)@ == old(out)@ + le_u32(v),
{
    out.push((v & 0xFF) as u8);
    out.push(((v >> 8) & 0xFF) as u8);
    out.push(((v >> 16) & 0xFF) as u8);
    out.push(((v >> 24) & 0xFF) as u8);
    assert(final(out)@ =~= old(out)@ + le_u32(v));
}

/// Reads the little-endian word at `s[i..i + 4]`.
pub fn read_le_u32(s: &[u8], i: usize) -> (r: u32)
    requires
        i + 4 <= s@.len(),
    ensures
        r == u32_at(s@, i as int),
{
    (s[i] as u32) | ((s[i + 1] as u32) << 8) | ((s[i + 2] as u32) << 16) | ((s[i + 3] as u32) << 24)
}

/// `p` followed by the bytes of `r`, or the error of `r`.
pub open spec fn prepend(p: Seq<u8>, r: Result<Seq<u8>, HookError>) -> Result<Seq<u8>, HookError> {
    match r {
        Ok(s) => Ok(p + s),
        Err(e) => Err(e),
    }
}

/// Prepending twice is prepending the concatenation.
pub proof fn lemma_prepend_assoc(a: Seq<u8>, b: Seq<u8>, r: Result<Seq<u8>, HookError>)
    ensures
        prepend(a, prepend(b, r)) == prepend(a + b, r),
{
    if let Ok(s) = r {
        assert(a + (b + s) =~= (a + b) + s);
    }
}

} // verus!
