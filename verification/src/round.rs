//! Rounding addresses to page boundaries (pages of 4096 bytes).

use vstd::prelude::*;

verus! {

/// The offset bits of an address within its page.
pub const PAGE_MASK: usize = 0xFFF;

/// The start of the page that holds `offset`.
pub fn round_down_to_page(offset: usize) -> (r: usize)
    ensures
        r == offset - offset % 4096,
        r % 4096 == 0,
        r <= offset < r + 4096,
{
    let r = offset & !PAGE_MASK;
    assert(r == offset - offset % 4096 && r % 4096 == 0) by (bit_vector)
        requires
            r == offset & !0xFFFusize,
    ;
    r
}

/// The first page boundary at or above `offset`; it must be representable.
pub fn round_up_to_page(offset: usize) -> (r: usize)
    requires
        offset + PAGE_MASK <= usize::MAX,
    ensures
        r % 4096 == 0,
        offset <= r < offset + 4096,
        r == (offset + 4095) / 4096 * 4096,
{
    let r = round_down_to_page(offset + PAGE_MASK);
    assert((offset + 4095) / 4096 * 4096 == (offset + 4095) - (offset + 4095) % 4096) by (nonlinear_arith);
    r
}

} // verus!
