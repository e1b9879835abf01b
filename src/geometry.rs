//! Sizes in whole pages.
use vstd::prelude::*;

verus! {

/// The least multiple of `page` that is at least `size`.
pub open spec fn round_up_spec(size: int, page: int) -> int
    recommends
        page > 0,
{
    if size % page == 0 {
        size
    } else {
        size + (page - size % page)
    }
}

/// Whether `n` lies on a page boundary.
pub open spec fn aligned_spec(n: int, page: int) -> bool
    recommends
        page > 0,
{
    n % page == 0
}

/// Rounds `size` up to a whole number of pages of `page` bytes, or `None`
/// where that number does not fit in a `usize`.
pub fn round_up(size: usize, page: usize) -> (r: Option<usize>)
    requires
        page > 0,
    ensures
        r is Some <==> round_up_spec(size as int, page as int) <= usize::MAX,
        r is Some ==> r->0 == round_up_spec(size as int, page as int),
{
    let rem = size % page;
    if rem == 0 {
        Some(size)
    } else {
        size.checked_add(page - rem)
    }
}

/// Rounding up gives a multiple of the page size that covers the requested
/// size and exceeds it by less than one page.
pub proof fn lemma_round_up_covers(size: int, page: int)
    requires
        size >= 0,
        page > 0,
    ensures
        round_up_spec(size, page) >= size,
        round_up_spec(size, page) < size + page,
        aligned_spec(round_up_spec(size, page), page),
        aligned_spec(size, page) ==> round_up_spec(size, page) == size,
{
    let r = size % page;
    if r != 0 {
        vstd::arithmetic::div_mod::lemma_fundamental_div_mod(size, page);
        vstd::arithmetic::div_mod::lemma_mod_multiples_basic(size / page + 1, page);
        assert(size + (page - r) == (size / page + 1) * page) by (nonlinear_arith)
            requires
                size == page * (size / page) + r,
        ;
    }
}

/// The length of address space that a mapping of `size` bytes takes: the
/// size itself, but at least one page, so that an empty snapshot can still
/// be mapped and remapped in place.
pub open spec fn map_len_spec(size: int, page: int) -> int {
    if size < page {
        page
    } else {
        size
    }
}

/// The length of address space to map for `size` bytes of content.
pub fn map_len(size: usize, page: usize) -> (r: usize)
    ensures
        r == map_len_spec(size as int, page as int),
{
    if size < page {
        page
    } else {
        size
    }
}

/// Splits a size into its low and high 32-bit halves, in that order, as the
/// Windows memory API takes it.
pub fn split_size(size: usize) -> (r: (u32, u32))
    ensures
        r.0 as int + r.1 as int * 0x1_0000_0000 == size as int,
{
    let s = size as u64;
    let high = s >> 32u64;
    let low = s & 0xffff_ffffu64;
    assert((s >> 32u64) < 0x1_0000_0000 && (s & 0xffff_ffffu64) < 0x1_0000_0000 && (s
        & 0xffff_ffffu64) + (s >> 32u64) * 0x1_0000_0000 == s) by (bit_vector);
    (low as u32, high as u32)
}

} // verus!
