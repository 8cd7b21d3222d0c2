//! `Frame`: a fixed-size unit of physical memory, identified by its index.
//! `FrameRange`: an inclusive, possibly empty range of contiguous frames.

use vstd::prelude::*;
use crate::addr::PhysicalAddress;
use crate::{
    lemma_containing_unit_spans_address, lemma_unit_index_in_bounds, lemma_unit_start_fits,
    lemma_unit_start_ordered, spec_clamped_unit_add, spec_saturating_add, spec_saturating_sub,
    unit_index, unit_start, MAX_PAGE_NUMBER, PAGE_SIZE,
};

verus! {

/// A `Frame` is a chunk of **physical** memory of `PAGE_SIZE` bytes,
/// similar to how a `Page` is a chunk of **virtual** memory.
#[derive(Clone, Copy, PartialEq, Eq, Structural, PartialOrd, Ord, Hash, Debug)]
pub struct Frame {
    pub number: usize,
}

impl Frame {
    /// A frame is valid when its index does not exceed the largest valid
    /// unit index, so that its whole byte span is addressable.
    pub open spec fn spec_valid(self) -> bool {
        self.number <= MAX_PAGE_NUMBER
    }

    /// Returns the `Frame` containing the given `PhysicalAddress`.
    pub fn containing_address(phys_addr: PhysicalAddress) -> (r: Frame)
        ensures
            r.number == unit_index(phys_addr.0 as int),
            r.spec_valid(),
    {
        proof {
            lemma_unit_index_in_bounds(phys_addr.0 as int);
        }
        Frame { number: phys_addr.0 / PAGE_SIZE }
    }

    /// Returns the `PhysicalAddress` at the start of this `Frame`.
    pub fn start_address(&self) -> (r: PhysicalAddress)
        requires
            self.spec_valid(),
        ensures
            r.0 == unit_start(self.number as int),
    {
        proof {
            lemma_unit_start_fits(self.number as int);
        }
        PhysicalAddress::new_canonical(self.number * PAGE_SIZE)
    }

    /// Advances the frame index by `count`, clamped to the largest valid
    /// index: the result never exceeds `MAX_PAGE_NUMBER`.
    pub fn add_frames(self, count: usize) -> (r: Frame)
        ensures
            r.number == spec_clamped_unit_add(self.number, count),
            r.spec_valid(),
    {
        let n: usize = self.number.saturating_add(count);
        Frame { number: if n <= MAX_PAGE_NUMBER { n } else { MAX_PAGE_NUMBER } }
    }

    /// Advances the frame index by `count` in place, clamped to the largest
    /// valid index.
    pub fn add_assign_frames(&mut self, count: usize)
        ensures
            final(self).number == spec_clamped_unit_add(old(self).number, count),
            final(self).spec_valid(),
    {
        *self = self.add_frames(count);
    }

    /// Retreats the frame index by `count`, saturating at zero.
    pub fn sub_frames(self, count: usize) -> (r: Frame)
        ensures
            r.number == spec_saturating_sub(self.number, count),
    {
        Frame { number: self.number.saturating_sub(count) }
    }

    /// Retreats the frame index by `count` in place, saturating at zero.
    pub fn sub_assign_frames(&mut self, count: usize)
        ensures
            final(self).number == spec_saturating_sub(old(self).number, count),
    {
        *self = self.sub_frames(count);
    }

    /// The number of forward steps from `start` to `end`, or `None` when
    /// `end` lies before `start`.
    pub fn steps_between(start: &Frame, end: &Frame) -> (r: Option<usize>)
        ensures
            r == if start.number <= end.number {
                Some((end.number - start.number) as usize)
            } else {
                None::<usize>
            },
    {
        if start.number <= end.number {
            Some(end.number - start.number)
        } else {
            None
        }
    }

    /// The frame `count` steps forward, or `None` when the index would not
    /// fit in a machine word.
    pub fn forward_checked(start: Frame, count: usize) -> (r: Option<Frame>)
        ensures
            r == if start.number + count <= usize::MAX {
                Some(Frame { number: (start.number + count) as usize })
            } else {
                None::<Frame>
            },
    {
        match start.number.checked_add(count) {
            Some(n) => Some(Frame { number: n }),
            None => None,
        }
    }

    /// The frame `count` steps backward, or `None` when the index would go
    /// below zero.
    pub fn backward_checked(start: Frame, count: usize) -> (r: Option<Frame>)
        ensures
            r == if start.number >= count {
                Some(Frame { number: (start.number - count) as usize })
            } else {
                None::<Frame>
            },
    {
        match start.number.checked_sub(count) {
            Some(n) => Some(Frame { number: n }),
            None => None,
        }
    }
}

/// An inclusive range of `Frame`s that are contiguous in physical memory.
///
/// A range whose `end` lies below its `start` is empty: it covers no frame
/// and has size zero.
#[derive(Clone, PartialEq, Eq, Structural, Debug)]
pub struct FrameRange {
    pub start: Frame,
    pub end: Frame,
}

impl FrameRange {
    /// Both bounds are valid frames.
    pub open spec fn spec_valid(self) -> bool {
        self.start.spec_valid() && self.end.spec_valid()
    }

    /// The number of frames covered: the inclusive distance between the
    /// bounds, and zero for an empty range.
    pub open spec fn spec_size_in_frames(self) -> int {
        if self.end.number < self.start.number {
            0
        } else {
            self.end.number - self.start.number + 1
        }
    }

    /// An empty range covers no frame.
    pub open spec fn spec_is_empty(self) -> bool {
        self.spec_size_in_frames() == 0
    }

    /// Whether the frame with index `n` lies within the range.
    pub open spec fn spec_contains_frame(self, n: int) -> bool {
        self.start.number <= n <= self.end.number
    }

    /// Whether the byte at address `a` lies within a frame of the range.
    pub open spec fn spec_contains_address(self, a: int) -> bool {
        self.spec_contains_frame(unit_index(a))
    }

    /// The canonical empty range: a start index just past the end index.
    pub open spec fn spec_empty() -> FrameRange {
        FrameRange { start: Frame { number: 1 }, end: Frame { number: 0 } }
    }

    /// The range built from a starting address and a positive byte count:
    /// from the frame containing the first byte to the frame containing the
    /// last, where the last byte's address saturates at the top of the
    /// address space.
    pub open spec fn spec_from_phys_addr(addr: PhysicalAddress, size_in_bytes: usize) -> FrameRange {
        FrameRange {
            start: Frame { number: unit_index(addr.0 as int) as usize },
            end: Frame {
                number: unit_index(
                    spec_saturating_add(addr.0, (size_in_bytes - 1) as usize) as int,
                ) as usize,
            },
        }
    }

    /// The smallest range covering both this range's span and `frame`;
    /// for an empty range, the singleton range holding `frame` alone.
    pub open spec fn spec_to_extended(self, frame: Frame) -> FrameRange {
        if self.spec_is_empty() {
            FrameRange { start: frame, end: frame }
        } else {
            FrameRange {
                start: if frame.number < self.start.number {
                    frame
                } else {
                    self.start
                },
                end: if frame.number > self.end.number {
                    frame
                } else {
                    self.end
                },
            }
        }
    }

    /// The offset of `phys_addr` from the range's start address when the
    /// address lies within the range, and `None` otherwise.
    pub open spec fn spec_offset_from_start(self, phys_addr: PhysicalAddress) -> Option<usize> {
        if self.spec_contains_address(phys_addr.0 as int) {
            Some((phys_addr.0 - unit_start(self.start.number as int)) as usize)
        } else {
            None
        }
    }

    /// Creates a new range of `Frame`s that spans from `start` to `end`,
    /// both inclusive bounds.
    pub fn new(start: Frame, end: Frame) -> (r: FrameRange)
        ensures
            r == (FrameRange { start, end }),
    {
        FrameRange { start, end }
    }

    /// Creates a `FrameRange` that covers no frame.
    pub fn empty() -> (r: FrameRange)
        ensures
            r == Self::spec_empty(),
            r.spec_is_empty(),
            r.spec_valid(),
    {
        FrameRange::new(Frame { number: 1 }, Frame { number: 0 })
    }

    /// A convenience method for creating a new `FrameRange` that spans all
    /// `Frame`s from the given physical address to an end bound based on the
    /// given size. The size must be positive: a zero-sized range is a
    /// programmer error.
    pub fn from_phys_addr(starting_addr: PhysicalAddress, size_in_bytes: usize) -> (r: FrameRange)
        requires
            size_in_bytes > 0,
        ensures
            r == Self::spec_from_phys_addr(starting_addr, size_in_bytes),
            r.spec_valid(),
            !r.spec_is_empty(),
            r.spec_contains_address(starting_addr.0 as int),
    {
        let start_frame = Frame::containing_address(starting_addr);
        // The end frame is an inclusive bound, hence the -1 on the size.
        let end_frame = Frame::containing_address(starting_addr.add_bytes(size_in_bytes - 1));
        proof {
            let a: int = starting_addr.0 as int;
            let last: int = spec_saturating_add(starting_addr.0, (size_in_bytes - 1) as usize) as int;
            assert(a / (PAGE_SIZE as int) <= last / (PAGE_SIZE as int)) by (nonlinear_arith)
                requires
                    0 <= a <= last,
                    0 < PAGE_SIZE as int,
            ;
        }
        FrameRange::new(start_frame, end_frame)
    }

    /// Returns the starting `Frame` of this range.
    pub fn start(&self) -> (r: Frame)
        ensures
            r == self.start,
    {
        self.start
    }

    /// Returns the ending `Frame` (an inclusive bound) of this range.
    pub fn end(&self) -> (r: Frame)
        ensures
            r == self.end,
    {
        self.end
    }

    /// Whether this range covers no frame.
    pub fn is_empty(&self) -> (r: bool)
        ensures
            r == self.spec_is_empty(),
    {
        self.end.number < self.start.number
    }

    /// Returns the `PhysicalAddress` of the starting `Frame` in this range.
    pub fn start_address(&self) -> (r: PhysicalAddress)
        requires
            self.start.spec_valid(),
        ensures
            r.0 == unit_start(self.start.number as int),
    {
        self.start.start_address()
    }

    /// Returns the number of `Frame`s covered by this range, in constant
    /// time; an empty range has size zero.
    pub fn size_in_frames(&self) -> (r: usize)
        requires
            self.end.spec_valid(),
        ensures
            r == self.spec_size_in_frames(),
    {
        if self.end.number < self.start.number {
            0
        } else {
            self.end.number - self.start.number + 1
        }
    }

    /// Whether this `FrameRange` contains the given `PhysicalAddress`.
    pub fn contains_phys_addr(&self, phys_addr: PhysicalAddress) -> (r: bool)
        ensures
            r == self.spec_contains_address(phys_addr.0 as int),
    {
        let frame = Frame::containing_address(phys_addr);
        self.start.number <= frame.number && frame.number <= self.end.number
    }

    /// Returns the offset of the given `PhysicalAddress` within this range:
    /// the difference between `phys_addr` and the range's start address.
    /// Returns `None` when the address lies outside the range.
    pub fn offset_from_start(&self, phys_addr: PhysicalAddress) -> (r: Option<usize>)
        requires
            self.start.spec_valid(),
        ensures
            r == self.spec_offset_from_start(phys_addr),
    {
        if self.contains_phys_addr(phys_addr) {
            proof {
                lemma_containing_unit_spans_address(phys_addr.0 as int);
                lemma_unit_start_ordered(self.start.number as int, unit_index(phys_addr.0 as int));
            }
            Some(phys_addr.value() - self.start_address().value())
        } else {
            None
        }
    }

    /// Returns a new, separate `FrameRange` extended to include the given
    /// `Frame`: the smallest range covering both the original span and the
    /// frame. The original range is left unchanged.
    pub fn to_extended(&self, frame_to_include: Frame) -> (r: FrameRange)
        ensures
            r == self.spec_to_extended(frame_to_include),
    {
        // An empty range has no span to keep: the result holds only the
        // given frame.
        if self.is_empty() {
            return FrameRange::new(frame_to_include, frame_to_include);
        }
        let start = if frame_to_include.number < self.start.number {
            frame_to_include
        } else {
            self.start
        };
        let end = if frame_to_include.number > self.end.number {
            frame_to_include
        } else {
            self.end
        };
        FrameRange::new(start, end)
    }

    /// Returns a fresh, restartable sequence of this range's frames in
    /// ascending order.
    pub fn iter(&self) -> (r: FrameRangeIter)
        requires
            self.end.spec_valid(),
        ensures
            r.next_number == self.start.number,
            r.end_number == self.end.number,
            r.spec_valid(),
            r.spec_frames_left() == self.spec_size_in_frames(),
    {
        FrameRangeIter { next_number: self.start.number, end_number: self.end.number }
    }
}

/// A lazy, ascending, finite sequence of the `Frame`s of a `FrameRange`,
/// yielded one by one by `next`. A fresh one is produced by
/// `FrameRange::iter`, so iteration can be restarted at will.
#[derive(Clone, Copy, PartialEq, Eq, Structural, Debug)]
pub struct FrameRangeIter {
    /// The index of the next frame to yield.
    pub next_number: usize,
    /// The index of the last frame to yield (inclusive).
    pub end_number: usize,
}

impl FrameRangeIter {
    /// The end bound stays a valid frame index, so advancing past it cannot
    /// overflow.
    pub open spec fn spec_valid(self) -> bool {
        self.end_number <= MAX_PAGE_NUMBER
    }

    /// How many frames are still to be yielded.
    pub open spec fn spec_frames_left(self) -> int {
        if self.end_number < self.next_number {
            0
        } else {
            self.end_number - self.next_number + 1
        }
    }

    /// Yields the next frame of the range, in ascending order, or `None`
    /// once every frame has been yielded.
    pub fn next(&mut self) -> (r: Option<Frame>)
        requires
            old(self).spec_valid(),
        ensures
            final(self).spec_valid(),
            final(self).end_number == old(self).end_number,
            old(self).spec_frames_left() > 0 ==> {
                &&& r == Some(Frame { number: old(self).next_number })
                &&& final(self).next_number == old(self).next_number + 1
                &&& final(self).spec_frames_left() == old(self).spec_frames_left() - 1
            },
            old(self).spec_frames_left() == 0 ==> {
                &&& r == None::<Frame>
                &&& *final(self) == *old(self)
            },
    {
        if self.next_number <= self.end_number {
            let frame = Frame { number: self.next_number };
            self.next_number = self.next_number + 1;
            Some(frame)
        } else {
            None
        }
    }
}

/// Law: the empty range has size zero, covers no frame, and yields no frame
/// when iterated.
pub proof fn lemma_empty_frame_range_has_no_frames()
    ensures
        FrameRange::spec_empty().spec_size_in_frames() == 0,
        forall|n: int| !FrameRange::spec_empty().spec_contains_frame(n),
        forall|it: FrameRangeIter|
            it.next_number == FrameRange::spec_empty().start.number
                && it.end_number == FrameRange::spec_empty().end.number
                ==> #[trigger] it.spec_frames_left() == 0,
{
}

/// Law: extending a range to include one more frame covers the original
/// span and the given frame, and its size is the full spanning distance
/// between the outermost bounds (one, when the original range was empty).
pub proof fn lemma_frame_range_to_extended_covers(r: FrameRange, u: Frame)
    ensures
        r.spec_to_extended(u).spec_contains_frame(u.number as int),
        forall|n: int|
            r.spec_contains_frame(n) ==> #[trigger] r.spec_to_extended(u).spec_contains_frame(n),
        r.spec_is_empty() ==> r.spec_to_extended(u).spec_size_in_frames() == 1,
        !r.spec_is_empty() ==> {
            let lo = if u.number < r.start.number {
                u.number as int
            } else {
                r.start.number as int
            };
            let hi = if u.number > r.end.number {
                u.number as int
            } else {
                r.end.number as int
            };
            r.spec_to_extended(u).spec_size_in_frames() == hi - lo + 1
        },
{
}

/// Law: a range built from an address and a byte count of one is the
/// singleton range holding exactly the frame containing that address.
pub proof fn lemma_frame_range_of_one_byte_is_singleton(addr: PhysicalAddress)
    ensures
        FrameRange::spec_from_phys_addr(addr, 1).start == FrameRange::spec_from_phys_addr(
            addr,
            1,
        ).end,
        FrameRange::spec_from_phys_addr(addr, 1).start.number == unit_index(addr.0 as int),
        FrameRange::spec_from_phys_addr(addr, 1).spec_size_in_frames() == 1,
        forall|n: int|
            FrameRange::spec_from_phys_addr(addr, 1).spec_contains_frame(n) <==> n == unit_index(
                addr.0 as int,
            ),
{
    lemma_unit_index_in_bounds(addr.0 as int);
}

} // verus!
