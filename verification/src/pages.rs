//! The page range whose protection must change before code at an address can be patched.

use vstd::prelude::*;

verus! {

/// The range of whole pages (of `page` bytes, a power of two) that holds `size` bytes at
/// `addr`: its start, `addr` rounded down to a page boundary, and its length, from there to
/// the end of the bytes.
pub fn protect_span(addr: usize, size: usize, page: usize) -> (r: (usize, usize))
    requires
        page >= 1,
        addr + size <= usize::MAX,
    ensures
        r.0 == addr & !((page - 1) as usize),
        r.0 <= addr,
        r.0 + r.1 == addr + size,
        page & ((page - 1) as usize) == 0 ==> addr - r.0 < page,
        r.0 & ((page - 1) as usize) == 0,
{
    let mask = page - 1;
    let aligned = addr & !mask;
    assert(aligned <= addr) by (bit_vector)
        requires
            aligned == addr & !mask,
    ;
    assert(page & mask == 0 ==> addr - aligned < page) by (bit_vector)
        requires
            aligned == addr & !mask,
            mask == page - 1,
            page >= 1,
    ;
    assert(aligned & mask == 0) by (bit_vector)
        requires
            aligned == addr & !mask,
    ;
    (aligned, (addr + size) - aligned)
}

} // verus!
