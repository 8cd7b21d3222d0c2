use memory_structs::{
    AggregatedSectionMemoryBounds, Frame, FrameRange, Page, PageRange, PhysicalAddress,
    PhysicalMemoryArea, SectionMemoryBounds, VirtualAddress, PAGE_SIZE,
};

#[test]
fn empty_ranges_have_size_zero_and_yield_nothing() {
    let fr = FrameRange::empty();
    assert_eq!(fr.size_in_frames(), 0);
    assert!(fr.is_empty());
    let mut it = fr.iter();
    assert_eq!(it.next(), None);
    assert_eq!(it.next(), None);

    let pr = PageRange::empty();
    assert_eq!(pr.size_in_pages(), 0);
    assert_eq!(pr.size_in_bytes(), 0);
    assert!(pr.is_empty());
    let mut it = pr.iter();
    assert_eq!(it.next(), None);
}

#[test]
fn range_sizes_count_inclusively() {
    let fr = FrameRange::new(Frame { number: 3 }, Frame { number: 6 });
    assert_eq!(fr.size_in_frames(), 4);
    assert!(!fr.is_empty());
    assert_eq!(fr.start(), Frame { number: 3 });
    assert_eq!(fr.end(), Frame { number: 6 });
    assert_eq!(fr.start_address(), PhysicalAddress(3 * PAGE_SIZE));

    let single = PageRange::new(Page { number: 9 }, Page { number: 9 });
    assert_eq!(single.size_in_pages(), 1);
    assert_eq!(single.size_in_bytes(), PAGE_SIZE);

    // A start past the end means an empty range, never a huge wrapped size.
    let backwards = PageRange::new(Page { number: 10 }, Page { number: 2 });
    assert_eq!(backwards.size_in_pages(), 0);
    assert_eq!(backwards.size_in_bytes(), 0);
    assert!(backwards.is_empty());
}

#[test]
fn from_address_with_one_byte_is_a_singleton() {
    let pr = PageRange::from_virt_addr(VirtualAddress(0x3500), 1);
    assert_eq!(pr.start(), Page::containing_address(VirtualAddress(0x3500)));
    assert_eq!(pr.end(), Page::containing_address(VirtualAddress(0x3500)));
    assert_eq!(pr.size_in_pages(), 1);

    let fr = FrameRange::from_phys_addr(PhysicalAddress(0x3500), 1);
    assert_eq!(fr.start(), Frame { number: 3 });
    assert_eq!(fr.end(), Frame { number: 3 });
    assert_eq!(fr.size_in_frames(), 1);
}

#[test]
fn from_address_spans_every_touched_unit() {
    // Exactly one page: the last byte is 0x2fff.
    let pr = PageRange::from_virt_addr(VirtualAddress(0x2000), PAGE_SIZE);
    assert_eq!((pr.start(), pr.end()), (Page { number: 2 }, Page { number: 2 }));

    // One byte more crosses into the next page.
    let pr = PageRange::from_virt_addr(VirtualAddress(0x2000), PAGE_SIZE + 1);
    assert_eq!((pr.start(), pr.end()), (Page { number: 2 }, Page { number: 3 }));

    // Two bytes across a page boundary touch two pages.
    let fr = FrameRange::from_phys_addr(PhysicalAddress(0x2fff), 2);
    assert_eq!((fr.start(), fr.end()), (Frame { number: 2 }, Frame { number: 3 }));

    // An end past the top of the address space saturates at the last unit.
    let fr = FrameRange::from_phys_addr(PhysicalAddress(usize::MAX - 1), usize::MAX);
    assert_eq!(fr.end(), Frame { number: usize::MAX / PAGE_SIZE });
}

#[test]
fn containment_follows_unit_boundaries() {
    let pr = PageRange::new(Page { number: 2 }, Page { number: 4 });
    assert!(!pr.contains_virt_addr(VirtualAddress(0x1fff)));
    assert!(pr.contains_virt_addr(VirtualAddress(0x2000)));
    assert!(pr.contains_virt_addr(VirtualAddress(0x3500)));
    assert!(pr.contains_virt_addr(VirtualAddress(0x4fff)));
    assert!(!pr.contains_virt_addr(VirtualAddress(0x5000)));

    let fr = FrameRange::new(Frame { number: 2 }, Frame { number: 4 });
    assert!(fr.contains_phys_addr(PhysicalAddress(0x2000)));
    assert!(!fr.contains_phys_addr(PhysicalAddress(0x5000)));
    assert!(!FrameRange::empty().contains_phys_addr(PhysicalAddress(0x1000)));
}

#[test]
fn offsets_round_trip_for_contained_addresses() {
    let pr = PageRange::new(Page { number: 2 }, Page { number: 4 });
    assert_eq!(pr.offset_of_address(VirtualAddress(0x3500)), Some(0x1500));
    assert_eq!(pr.offset_of_address(VirtualAddress(0x2000)), Some(0));
    assert_eq!(pr.offset_of_address(VirtualAddress(0x5000)), None);
    assert_eq!(pr.address_at_offset(0x1500), Some(VirtualAddress(0x3500)));
    assert_eq!(pr.address_at_offset(0), Some(VirtualAddress(0x2000)));
    // The one-past-end offset is still answered; one further is not.
    assert_eq!(pr.size_in_bytes(), 3 * PAGE_SIZE);
    assert_eq!(pr.address_at_offset(3 * PAGE_SIZE), Some(VirtualAddress(0x5000)));
    assert_eq!(pr.address_at_offset(3 * PAGE_SIZE + 1), None);

    // Round trip: offset_of_address then address_at_offset gives the address back.
    for addr in [0x2000usize, 0x2001, 0x3500, 0x4fff] {
        let off = pr.offset_of_address(VirtualAddress(addr)).unwrap();
        assert_eq!(pr.address_at_offset(off), Some(VirtualAddress(addr)));
    }

    let fr = FrameRange::new(Frame { number: 2 }, Frame { number: 4 });
    assert_eq!(fr.offset_from_start(PhysicalAddress(0x3500)), Some(0x1500));
    assert_eq!(fr.offset_from_start(PhysicalAddress(0x1fff)), None);
}

#[test]
fn to_extended_covers_span_and_unit() {
    // Extending an empty range gives the singleton range of the given unit.
    let ext = FrameRange::empty().to_extended(Frame { number: 7 });
    assert_eq!((ext.start(), ext.end()), (Frame { number: 7 }, Frame { number: 7 }));
    assert_eq!(ext.size_in_frames(), 1);

    let fr = FrameRange::new(Frame { number: 3 }, Frame { number: 6 });
    // A frame below the start extends the range downward.
    let ext = fr.to_extended(Frame { number: 1 });
    assert_eq!((ext.start(), ext.end()), (Frame { number: 1 }, Frame { number: 6 }));
    assert_eq!(ext.size_in_frames(), 6);
    // An adjacent frame past the end grows the size by one.
    let ext = fr.to_extended(Frame { number: 7 });
    assert_eq!((ext.start(), ext.end()), (Frame { number: 3 }, Frame { number: 7 }));
    assert_eq!(ext.size_in_frames(), fr.size_in_frames() + 1);
    // A distant frame fills the whole spanning distance.
    let ext = fr.to_extended(Frame { number: 10 });
    assert_eq!(ext.size_in_frames(), 8);
    // A contained frame changes nothing.
    assert_eq!(fr.to_extended(Frame { number: 4 }), fr);
    // The original is never mutated.
    assert_eq!(fr, FrameRange::new(Frame { number: 3 }, Frame { number: 6 }));

    let pr = PageRange::new(Page { number: 3 }, Page { number: 6 });
    let ext = pr.to_extended(Page { number: 0 });
    assert_eq!((ext.start(), ext.end()), (Page { number: 0 }, Page { number: 6 }));
    let ext = PageRange::empty().to_extended(Page { number: 2 });
    assert_eq!(ext.size_in_pages(), 1);
}

#[test]
fn iteration_is_ascending_finite_and_restartable() {
    let fr = FrameRange::new(Frame { number: 3 }, Frame { number: 6 });
    let mut it = fr.iter();
    let mut seen = Vec::new();
    while let Some(f) = it.next() {
        seen.push(f.number);
    }
    assert_eq!(seen, vec![3, 4, 5, 6]);
    assert_eq!(it.next(), None);

    // A fresh iterator restarts from the beginning.
    let mut again = fr.iter();
    assert_eq!(again.next(), Some(Frame { number: 3 }));

    let pr = PageRange::new(Page { number: 9 }, Page { number: 9 });
    let mut it = pr.iter();
    assert_eq!(it.next(), Some(Page { number: 9 }));
    assert_eq!(it.next(), None);
}

#[test]
fn descriptor_records_hold_their_fields() {
    let area = PhysicalMemoryArea::new(PhysicalAddress(0x8000_0000), 0x10_0000, 1, 0);
    assert_eq!(area.base_addr, PhysicalAddress(0x8000_0000));
    assert_eq!(area.size_in_bytes, 0x10_0000);
    assert_eq!(area.typ, 1);
    assert_eq!(area.acpi, 0);
    let zero = PhysicalMemoryArea::default();
    assert_eq!(zero.base_addr, PhysicalAddress(0));
    assert_eq!(zero.size_in_bytes, 0);

    let text = SectionMemoryBounds {
        start: (VirtualAddress(0x1000), PhysicalAddress(0x2000)),
        end: (VirtualAddress(0x3000), PhysicalAddress(0x4000)),
    };
    assert_eq!(text.start.0, VirtualAddress(0x1000));
    assert_eq!(text.end.1, PhysicalAddress(0x4000));

    let all = AggregatedSectionMemoryBounds { text, rodata: text, data: text, stack: text };
    assert_eq!(all.stack.start.1, PhysicalAddress(0x2000));
}
