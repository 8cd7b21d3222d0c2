//! `Page`: a fixed-size unit of virtual memory, identified by its index.
//! `PageRange`: an inclusive, possibly empty range of contiguous pages.

use vstd::prelude::*;
use crate::addr::VirtualAddress;
use crate::{
    lemma_containing_unit_spans_address, lemma_unit_index_in_bounds, lemma_unit_start_fits,
    lemma_unit_start_ordered, spec_clamped_unit_add, spec_saturating_add, spec_saturating_sub,
    unit_index, unit_start, MAX_PAGE_NUMBER, PAGE_SIZE,
};

verus! {

/// A `Page` is a chunk of **virtual** memory of `PAGE_SIZE` bytes,
/// similar to how a `Frame` is a chunk of **physical** memory.
#[derive(Clone, Copy, PartialEq, Eq, Structural, PartialOrd, Ord, Hash, Debug)]
pub struct Page {
    pub number: usize,
}

impl Page {
    /// A page is valid when its index does not exceed the largest valid
    /// unit index, so that its whole byte span is addressable.
    pub open spec fn spec_valid(self) -> bool {
        self.number <= MAX_PAGE_NUMBER
    }

    /// Returns the `Page` containing the given `VirtualAddress`.
    pub fn containing_address(virt_addr: VirtualAddress) -> (r: Page)
        ensures
            r.number == unit_index(virt_addr.0 as int),
            r.spec_valid(),
    {
        proof {
            lemma_unit_index_in_bounds(virt_addr.0 as int);
        }
        Page { number: virt_addr.0 / PAGE_SIZE }
    }

    /// Returns the `VirtualAddress` at the start of this `Page`.
    pub fn start_address(&self) -> (r: VirtualAddress)
        requires
            self.spec_valid(),
        ensures
            r.0 == unit_start(self.number as int),
    {
        proof {
            lemma_unit_start_fits(self.number as int);
        }
        VirtualAddress::new_canonical(self.number * PAGE_SIZE)
    }

    /// Advances the page index by `count`, clamped to the largest valid
    /// index: the result never exceeds `MAX_PAGE_NUMBER`.
    pub fn add_pages(self, count: usize) -> (r: Page)
        ensures
            r.number == spec_clamped_unit_add(self.number, count),
            r.spec_valid(),
    {
        let n: usize = self.number.saturating_add(count);
        Page { number: if n <= MAX_PAGE_NUMBER { n } else { MAX_PAGE_NUMBER } }
    }

    /// Advances the page index by `count` in place, clamped to the largest
    /// valid index.
    pub fn add_assign_pages(&mut self, count: usize)
        ensures
            final(self).number == spec_clamped_unit_add(old(self).number, count),
            final(self).spec_valid(),
    {
        *self = self.add_pages(count);
    }

    /// Retreats the page index by `count`, saturating at zero.
    pub fn sub_pages(self, count: usize) -> (r: Page)
        ensures
            r.number == spec_saturating_sub(self.number, count),
    {
        Page { number: self.number.saturating_sub(count) }
    }

    /// Retreats the page index by `count` in place, saturating at zero.
    pub fn sub_assign_pages(&mut self, count: usize)
        ensures
            final(self).number == spec_saturating_sub(old(self).number, count),
    {
        *self = self.sub_pages(count);
    }

    /// The number of forward steps from `start` to `end`, or `None` when
    /// `end` lies before `start`.
    pub fn steps_between(start: &Page, end: &Page) -> (r: Option<usize>)
        ensures
            r == if start.number <= end.number {
                Some((end.number - start.number) as usize)
            } else {
                None::<usize>
            },
    {
        if start.number <= end.number {
            Some(end.number - start.number)
        } else {
            None
        }
    }

    /// The page `count` steps forward, or `None` when the index would not
    /// fit in a machine word.
    pub fn forward_checked(start: Page, count: usize) -> (r: Option<Page>)
        ensures
            r == if start.number + count <= usize::MAX {
                Some(Page { number: (start.number + count) as usize })
            } else {
                None::<Page>
            },
    {
        match start.number.checked_add(count) {
            Some(n) => Some(Page { number: n }),
            None => None,
        }
    }

    /// The page `count` steps backward, or `None` when the index would go
    /// below zero.
    pub fn backward_checked(start: Page, count: usize) -> (r: Option<Page>)
        ensures
            r == if start.number >= count {
                Some(Page { number: (start.number - count) as usize })
            } else {
                None::<Page>
            },
    {
        match start.number.checked_sub(count) {
            Some(n) => Some(Page { number: n }),
            None => None,
        }
    }
}

/// An inclusive range of `Page`s that are contiguous in virtual memory.
///
/// A range whose `end` lies below its `start` is empty: it covers no page
/// and has size zero.
#[derive(Clone, PartialEq, Eq, Structural, Debug)]
pub struct PageRange {
    pub start: Page,
    pub end: Page,
}

impl PageRange {
    /// Both bounds are valid pages.
    pub open spec fn spec_valid(self) -> bool {
        self.start.spec_valid() && self.end.spec_valid()
    }

    /// The number of pages covered: the inclusive distance between the
    /// bounds, and zero for an empty range.
    pub open spec fn spec_size_in_pages(self) -> int {
        if self.end.number < self.start.number {
            0
        } else {
            self.end.number - self.start.number + 1
        }
    }

    /// The number of bytes covered by the range's pages.
    pub open spec fn spec_size_in_bytes(self) -> int {
        self.spec_size_in_pages() * PAGE_SIZE
    }

    /// An empty range covers no page.
    pub open spec fn spec_is_empty(self) -> bool {
        self.spec_size_in_pages() == 0
    }

    /// Whether the page with index `n` lies within the range.
    pub open spec fn spec_contains_page(self, n: int) -> bool {
        self.start.number <= n <= self.end.number
    }

    /// Whether the byte at address `a` lies within a page of the range.
    pub open spec fn spec_contains_address(self, a: int) -> bool {
        self.spec_contains_page(unit_index(a))
    }

    /// The canonical empty range: a start index just past the end index.
    pub open spec fn spec_empty() -> PageRange {
        PageRange { start: Page { number: 1 }, end: Page { number: 0 } }
    }

    /// The range built from a starting address and a positive byte count:
    /// from the page containing the first byte to the page containing the
    /// last, where the last byte's address saturates at the top of the
    /// address space.
    pub open spec fn spec_from_virt_addr(addr: VirtualAddress, size_in_bytes: usize) -> PageRange {
        PageRange {
            start: Page { number: unit_index(addr.0 as int) as usize },
            end: Page {
                number: unit_index(
                    spec_saturating_add(addr.0, (size_in_bytes - 1) as usize) as int,
                ) as usize,
            },
        }
    }

    /// The smallest range covering both this range's span and `page`;
    /// for an empty range, the singleton range holding `page` alone.
    pub open spec fn spec_to_extended(self, page: Page) -> PageRange {
        if self.spec_is_empty() {
            PageRange { start: page, end: page }
        } else {
            PageRange {
                start: if page.number < self.start.number {
                    page
                } else {
                    self.start
                },
                end: if page.number > self.end.number {
                    page
                } else {
                    self.end
                },
            }
        }
    }

    /// The offset of `virt_addr` from the range's start address when the
    /// address lies within the range, and `None` otherwise.
    pub open spec fn spec_offset_of_address(self, virt_addr: VirtualAddress) -> Option<usize> {
        if self.spec_contains_address(virt_addr.0 as int) {
            Some((virt_addr.0 - unit_start(self.start.number as int)) as usize)
        } else {
            None
        }
    }

    /// The address at a byte offset into the range's span when the offset
    /// does not run past the span (the one-past-end offset included, the
    /// symmetric counterpart of `spec_offset_of_address`), and `None`
    /// otherwise.
    pub open spec fn spec_address_at_offset(self, offset: usize) -> Option<VirtualAddress> {
        if offset <= self.spec_size_in_bytes() {
            Some(
                VirtualAddress(
                    spec_saturating_add(unit_start(self.start.number as int) as usize, offset),
                ),
            )
        } else {
            None
        }
    }

    /// Creates a new range of `Page`s that spans from `start` to `end`,
    /// both inclusive bounds.
    pub fn new(start: Page, end: Page) -> (r: PageRange)
        ensures
            r == (PageRange { start, end }),
    {
        PageRange { start, end }
    }

    /// Creates a `PageRange` that covers no page.
    pub fn empty() -> (r: PageRange)
        ensures
            r == Self::spec_empty(),
            r.spec_is_empty(),
            r.spec_valid(),
    {
        PageRange::new(Page { number: 1 }, Page { number: 0 })
    }

    /// A convenience method for creating a new `PageRange` that spans all
    /// `Page`s from the given physical address to an end bound based on the
    /// given size. The size must be positive: a zero-sized range is a
    /// programmer error.
    pub fn from_virt_addr(starting_addr: VirtualAddress, size_in_bytes: usize) -> (r: PageRange)
        requires
            size_in_bytes > 0,
        ensures
            r == Self::spec_from_virt_addr(starting_addr, size_in_bytes),
            r.spec_valid(),
            !r.spec_is_empty(),
            r.spec_contains_address(starting_addr.0 as int),
    {
        let start_page = Page::containing_address(starting_addr);
        // The end page is an inclusive bound, hence the -1 on the size.
        let end_page = Page::containing_address(starting_addr.add_bytes(size_in_bytes - 1));
        proof {
            let a: int = starting_addr.0 as int;
            let last: int = spec_saturating_add(starting_addr.0, (size_in_bytes - 1) as usize) as int;
            assert(a / (PAGE_SIZE as int) <= last / (PAGE_SIZE as int)) by (nonlinear_arith)
                requires
                    0 <= a <= last,
                    0 < PAGE_SIZE as int,
            ;
        }
        PageRange::new(start_page, end_page)
    }

    /// Returns the starting `Page` of this range.
    pub fn start(&self) -> (r: Page)
        ensures
            r == self.start,
    {
        self.start
    }

    /// Returns the ending `Page` (an inclusive bound) of this range.
    pub fn end(&self) -> (r: Page)
        ensures
            r == self.end,
    {
        self.end
    }

    /// Whether this range covers no page.
    pub fn is_empty(&self) -> (r: bool)
        ensures
            r == self.spec_is_empty(),
    {
        self.end.number < self.start.number
    }

    /// Returns the `VirtualAddress` of the starting `Page` in this range.
    pub fn start_address(&self) -> (r: VirtualAddress)
        requires
            self.start.spec_valid(),
        ensures
            r.0 == unit_start(self.start.number as int),
    {
        self.start.start_address()
    }

    /// Returns the number of `Page`s covered by this range, in constant
    /// time; an empty range has size zero.
    pub fn size_in_pages(&self) -> (r: usize)
        requires
            self.end.spec_valid(),
        ensures
            r == self.spec_size_in_pages(),
    {
        if self.end.number < self.start.number {
            0
        } else {
            self.end.number - self.start.number + 1
        }
    }

    /// Returns the number of bytes covered by this range's pages.
    pub fn size_in_bytes(&self) -> (r: usize)
        requires
            self.end.spec_valid(),
            self.spec_size_in_bytes() <= usize::MAX,
        ensures
            r == self.spec_size_in_bytes(),
    {
        self.size_in_pages() * PAGE_SIZE
    }

    /// Returns the `VirtualAddress` at the given byte offset into this
    /// range's span, or `None` when the offset runs past it. The offset
    /// one past the end is accepted, matching the symmetric contract with
    /// `offset_of_address`.
    pub fn address_at_offset(&self, offset: usize) -> (r: Option<VirtualAddress>)
        requires
            self.spec_valid(),
            self.spec_size_in_bytes() <= usize::MAX,
        ensures
            r == self.spec_address_at_offset(offset),
    {
        if offset <= self.size_in_bytes() {
            Some(self.start_address().add_bytes(offset))
        } else {
            None
        }
    }

    /// Whether this `PageRange` contains the given `VirtualAddress`.
    pub fn contains_virt_addr(&self, virt_addr: VirtualAddress) -> (r: bool)
        ensures
            r == self.spec_contains_address(virt_addr.0 as int),
    {
        let page = Page::containing_address(virt_addr);
        self.start.number <= page.number && page.number <= self.end.number
    }

    /// Returns the offset of the given `VirtualAddress` within this range:
    /// the difference between `virt_addr` and the range's start address.
    /// Returns `None` when the address lies outside the range.
    pub fn offset_of_address(&self, virt_addr: VirtualAddress) -> (r: Option<usize>)
        requires
            self.start.spec_valid(),
        ensures
            r == self.spec_offset_of_address(virt_addr),
    {
        if self.contains_virt_addr(virt_addr) {
            proof {
                lemma_containing_unit_spans_address(virt_addr.0 as int);
                lemma_unit_start_ordered(self.start.number as int, unit_index(virt_addr.0 as int));
            }
            Some(virt_addr.value() - self.start_address().value())
        } else {
            None
        }
    }

    /// Returns a new, separate `PageRange` extended to include the given
    /// `Page`: the smallest range covering both the original span and the
    /// page. The original range is left unchanged.
    pub fn to_extended(&self, page_to_include: Page) -> (r: PageRange)
        ensures
            r == self.spec_to_extended(page_to_include),
    {
        // An empty range has no span to keep: the result holds only the
        // given page.
        if self.is_empty() {
            return PageRange::new(page_to_include, page_to_include);
        }
        let start = if page_to_include.number < self.start.number {
            page_to_include
        } else {
            self.start
        };
        let end = if page_to_include.number > self.end.number {
            page_to_include
        } else {
            self.end
        };
        PageRange::new(start, end)
    }

    /// Returns a fresh, restartable sequence of this range's pages in
    /// ascending order.
    pub fn iter(&self) -> (r: PageRangeIter)
        requires
            self.end.spec_valid(),
        ensures
            r.next_number == self.start.number,
            r.end_number == self.end.number,
            r.spec_valid(),
            r.spec_pages_left() == self.spec_size_in_pages(),
    {
        PageRangeIter { next_number: self.start.number, end_number: self.end.number }
    }
}

/// A lazy, ascending, finite sequence of the `Page`s of a `PageRange`,
/// yielded one by one by `next`. A fresh one is produced by
/// `PageRange::iter`, so iteration can be restarted at will.
#[derive(Clone, Copy, PartialEq, Eq, Structural, Debug)]
pub struct PageRangeIter {
    /// The index of the next page to yield.
    pub next_number: usize,
    /// The index of the last page to yield (inclusive).
    pub end_number: usize,
}

impl PageRangeIter {
    /// The end bound stays a valid page index, so advancing past it cannot
    /// overflow.
    pub open spec fn spec_valid(self) -> bool {
        self.end_number <= MAX_PAGE_NUMBER
    }

    /// How many pages are still to be yielded.
    pub open spec fn spec_pages_left(self) -> int {
        if self.end_number < self.next_number {
            0
        } else {
            self.end_number - self.next_number + 1
        }
    }

    /// Yields the next page of the range, in ascending order, or `None`
    /// once every page has been yielded.
    pub fn next(&mut self) -> (r: Option<Page>)
        requires
            old(self).spec_valid(),
        ensures
            final(self).spec_valid(),
            final(self).end_number == old(self).end_number,
            old(self).spec_pages_left() > 0 ==> {
                &&& r == Some(Page { number: old(self).next_number })
                &&& final(self).next_number == old(self).next_number + 1
                &&& final(self).spec_pages_left() == old(self).spec_pages_left() - 1
            },
            old(self).spec_pages_left() == 0 ==> {
                &&& r == None::<Page>
                &&& *final(self) == *old(self)
            },
    {
        if self.next_number <= self.end_number {
            let page = Page { number: self.next_number };
            self.next_number = self.next_number + 1;
            Some(page)
        } else {
            None
        }
    }
}

/// Law: the empty range has size zero, covers no page, and yields no page
/// when iterated.
pub proof fn lemma_empty_page_range_has_no_pages()
    ensures
        PageRange::spec_empty().spec_size_in_pages() == 0,
        forall|n: int| !PageRange::spec_empty().spec_contains_page(n),
        forall|it: PageRangeIter|
            it.next_number == PageRange::spec_empty().start.number
                && it.end_number == PageRange::spec_empty().end.number
                ==> #[trigger] it.spec_pages_left() == 0,
{
}

/// Law: extending a range to include one more page covers the original
/// span and the given page, and its size is the full spanning distance
/// between the outermost bounds (one, when the original range was empty).
pub proof fn lemma_page_range_to_extended_covers(r: PageRange, u: Page)
    ensures
        r.spec_to_extended(u).spec_contains_page(u.number as int),
        forall|n: int|
            r.spec_contains_page(n) ==> #[trigger] r.spec_to_extended(u).spec_contains_page(n),
        r.spec_is_empty() ==> r.spec_to_extended(u).spec_size_in_pages() == 1,
        !r.spec_is_empty() ==> {
            let lo = if u.number < r.start.number {
                u.number as int
            } else {
                r.start.number as int
            };
            let hi = if u.number > r.end.number {
                u.number as int
            } else {
                r.end.number as int
            };
            r.spec_to_extended(u).spec_size_in_pages() == hi - lo + 1
        },
{
}

/// Law: a range built from an address and a byte count of one is the
/// singleton range holding exactly the page containing that address.
pub proof fn lemma_page_range_of_one_byte_is_singleton(addr: VirtualAddress)
    ensures
        PageRange::spec_from_virt_addr(addr, 1).start == PageRange::spec_from_virt_addr(
            addr,
            1,
        ).end,
        PageRange::spec_from_virt_addr(addr, 1).start.number == unit_index(addr.0 as int),
        PageRange::spec_from_virt_addr(addr, 1).spec_size_in_pages() == 1,
        forall|n: int|
            PageRange::spec_from_virt_addr(addr, 1).spec_contains_page(n) <==> n == unit_index(
                addr.0 as int,
            ),
{
    lemma_unit_index_in_bounds(addr.0 as int);
}

/// Law: for every address contained in a range, taking the address's offset
/// from the range's start and then asking for the address at that offset
/// returns the same address.
pub proof fn lemma_page_range_offset_round_trip(r: PageRange, addr: VirtualAddress)
    requires
        r.spec_valid(),
        r.spec_contains_address(addr.0 as int),
    ensures
        r.spec_offset_of_address(addr) is Some,
        r.spec_address_at_offset(r.spec_offset_of_address(addr)->Some_0) == Some(addr),
{
    let ps: int = PAGE_SIZE as int;
    let idx: int = unit_index(addr.0 as int);
    lemma_containing_unit_spans_address(addr.0 as int);
    lemma_unit_start_ordered(r.start.number as int, idx);
    lemma_unit_start_ordered(idx, r.end.number as int);
    let off: usize = r.spec_offset_of_address(addr)->Some_0;
    // The offset stays within the range's byte span: the address lies below
    // the end of the last page, which is the start of the range plus its
    // size in bytes.
    assert(unit_start(r.end.number as int) + ps - unit_start(r.start.number as int)
        == r.spec_size_in_bytes()) by (nonlinear_arith)
        requires
            r.start.number <= r.end.number,
            ps == PAGE_SIZE as int,
            r.spec_size_in_bytes() == (r.end.number - r.start.number + 1) * ps,
    ;
    assert(off <= r.spec_size_in_bytes());
}

} // verus!
