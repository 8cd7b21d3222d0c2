//! Type-safe vocabulary for a kernel memory manager: virtual and physical
//! addresses, fixed-granularity memory units (`Page`, `Frame`), inclusive
//! ranges of those units, and the plain descriptor records exchanged with
//! the boot environment.

use vstd::prelude::*;
use vstd::arithmetic::div_mod::{lemma_fundamental_div_mod, lemma_mod_bound};
use vstd::arithmetic::mul::{lemma_mul_inequality, lemma_mul_nonnegative};

mod addr;
mod area;
mod frame;
mod page;

pub use addr::{PhysicalAddress, VirtualAddress};
pub use area::{AggregatedSectionMemoryBounds, PhysicalMemoryArea, SectionMemoryBounds};
pub use frame::{
    lemma_empty_frame_range_has_no_frames, lemma_frame_range_of_one_byte_is_singleton,
    lemma_frame_range_to_extended_covers, Frame, FrameRange, FrameRangeIter,
};
pub use page::{
    lemma_empty_page_range_has_no_pages, lemma_page_range_of_one_byte_is_singleton,
    lemma_page_range_offset_round_trip, lemma_page_range_to_extended_covers, Page, PageRange,
    PageRangeIter,
};

verus! {

/// The size in bytes of one memory unit (a `Page` of virtual memory or a
/// `Frame` of physical memory). Must be a power of two.
pub const PAGE_SIZE: usize = 0x1000;

/// The largest valid unit index: the number of the unit whose span ends at
/// the top of the address space.
pub const MAX_PAGE_NUMBER: usize = usize::MAX / PAGE_SIZE;

/// The index of the memory unit containing the byte at address `a`:
/// truncating division by `PAGE_SIZE`.
pub open spec fn unit_index(a: int) -> int {
    a / (PAGE_SIZE as int)
}

/// The address of the first byte of the unit with index `n`.
pub open spec fn unit_start(n: int) -> int {
    n * (PAGE_SIZE as int)
}

/// The offset of the byte at address `a` within its containing unit.
pub open spec fn unit_offset(a: int) -> int {
    a % (PAGE_SIZE as int)
}

/// Addition of machine words clamped to the representable maximum.
pub open spec fn spec_saturating_add(a: usize, b: usize) -> usize {
    if a + b <= usize::MAX {
        (a + b) as usize
    } else {
        usize::MAX
    }
}

/// Subtraction of machine words clamped to zero.
pub open spec fn spec_saturating_sub(a: usize, b: usize) -> usize {
    if a >= b {
        (a - b) as usize
    } else {
        0
    }
}

/// Addition of unit numbers clamped to the largest valid unit index.
pub open spec fn spec_clamped_unit_add(n: usize, count: usize) -> usize {
    if n + count <= MAX_PAGE_NUMBER {
        (n + count) as usize
    } else {
        MAX_PAGE_NUMBER
    }
}

/// The unit containing any addressable byte has a valid unit index.
pub proof fn lemma_unit_index_in_bounds(a: int)
    requires
        0 <= a <= usize::MAX,
    ensures
        0 <= unit_index(a) <= MAX_PAGE_NUMBER,
{
    let ps: int = PAGE_SIZE as int;
    lemma_fundamental_div_mod(a, ps);
    lemma_mod_bound(a, ps);
    lemma_fundamental_div_mod(usize::MAX as int, ps);
    lemma_mod_bound(usize::MAX as int, ps);
    assert(a / ps <= usize::MAX as int / ps) by (nonlinear_arith)
        requires
            0 <= a <= usize::MAX as int,
            0 < ps,
    ;
}

/// A valid unit index has a start address whose whole unit fits below the
/// top of the address space.
pub proof fn lemma_unit_start_fits(n: int)
    requires
        0 <= n <= MAX_PAGE_NUMBER,
    ensures
        0 <= unit_start(n) <= usize::MAX - (PAGE_SIZE - 1),
{
    let ps: int = PAGE_SIZE as int;
    let max: int = usize::MAX as int;
    lemma_fundamental_div_mod(max, ps);
    lemma_mod_bound(max, ps);
    lemma_mul_inequality(n, max / ps, ps);
    lemma_mul_nonnegative(n, ps);
}

/// Every byte of memory lies within the span of its containing unit:
/// the unit's start address is at or below the byte's address, and the
/// unit's span of `PAGE_SIZE` bytes reaches past it.
pub proof fn lemma_containing_unit_spans_address(a: int)
    requires
        0 <= a,
    ensures
        unit_start(unit_index(a)) <= a < unit_start(unit_index(a)) + PAGE_SIZE,
        a == unit_start(unit_index(a)) + unit_offset(a),
{
    let ps: int = PAGE_SIZE as int;
    lemma_fundamental_div_mod(a, ps);
    lemma_mod_bound(a, ps);
}

/// The start addresses of units are ordered as their indices are.
pub proof fn lemma_unit_start_ordered(m: int, n: int)
    requires
        m <= n,
    ensures
        unit_start(m) <= unit_start(n),
{
    lemma_mul_inequality(m, n, PAGE_SIZE as int);
}

} // verus!
