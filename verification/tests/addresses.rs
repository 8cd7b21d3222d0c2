use memory_structs::{
    Frame, Page, PhysicalAddress, VirtualAddress, MAX_PAGE_NUMBER, PAGE_SIZE,
};

#[test]
fn new_always_succeeds_and_keeps_the_value() {
    assert_eq!(VirtualAddress::new(0x1234), Ok(VirtualAddress(0x1234)));
    assert_eq!(PhysicalAddress::new(0xdead_beef), Ok(PhysicalAddress(0xdead_beef)));
    assert_eq!(VirtualAddress::new(usize::MAX), Ok(VirtualAddress(usize::MAX)));
    assert_eq!(PhysicalAddress::new(0), Ok(PhysicalAddress(0)));
}

#[test]
fn new_canonical_and_value_round_trip() {
    assert_eq!(VirtualAddress::new_canonical(0x42).value(), 0x42);
    assert_eq!(PhysicalAddress::new_canonical(0x42).value(), 0x42);
    assert_eq!(VirtualAddress::zero().value(), 0);
    assert_eq!(PhysicalAddress::zero().value(), 0);
    assert_eq!(VirtualAddress::default(), VirtualAddress(0));
    assert_eq!(PhysicalAddress::default(), PhysicalAddress(0));
}

#[test]
fn page_offset_is_the_low_bits() {
    // With PAGE_SIZE = 0x1000, the offset is the low 12 bits.
    assert_eq!(PAGE_SIZE, 0x1000);
    assert_eq!(VirtualAddress(0x2000_1500).page_offset(), 0x500);
    assert_eq!(VirtualAddress(0x2000_1000).page_offset(), 0);
    assert_eq!(VirtualAddress(0x2000_1fff).page_offset(), 0xfff);
    assert_eq!(PhysicalAddress(0x2000_1500).frame_offset(), 0x500);
    assert_eq!(PhysicalAddress(0xfff).frame_offset(), 0xfff);
}

#[test]
fn containing_unit_start_spans_the_address() {
    // The containing unit starts at or below the address and spans past it.
    for addr in [0usize, 1, 0xfff, 0x1000, 0x2000_1500, usize::MAX] {
        let page = Page::containing_address(VirtualAddress(addr));
        let start = page.start_address().value();
        assert!(start <= addr);
        assert!(addr - start < PAGE_SIZE);

        let frame = Frame::containing_address(PhysicalAddress(addr));
        let start = frame.start_address().value();
        assert!(start <= addr);
        assert!(addr - start < PAGE_SIZE);
    }
}

#[test]
fn containing_address_truncates() {
    assert_eq!(Page::containing_address(VirtualAddress(0x2000_1500)).start_address(),
        VirtualAddress(0x2000_1000));
    assert_eq!(Frame::containing_address(PhysicalAddress(0x2000_1500)).start_address(),
        PhysicalAddress(0x2000_1000));
    assert_eq!(Page::containing_address(VirtualAddress(0x3000)), Page { number: 3 });
    assert_eq!(Frame::containing_address(PhysicalAddress(0)), Frame { number: 0 });
}

#[test]
fn address_arithmetic_saturates() {
    assert_eq!(VirtualAddress(usize::MAX).add_bytes(5), VirtualAddress(usize::MAX));
    assert_eq!(VirtualAddress(10).sub_bytes(20), VirtualAddress(0));
    assert_eq!(VirtualAddress(100).add_bytes(28), VirtualAddress(128));
    assert_eq!(VirtualAddress(100).sub_bytes(28), VirtualAddress(72));
    assert_eq!(PhysicalAddress(usize::MAX - 1).add_bytes(7), PhysicalAddress(usize::MAX));
    assert_eq!(PhysicalAddress(3).sub_bytes(4), PhysicalAddress(0));

    let mut v = VirtualAddress(0x1000);
    v.add_assign_bytes(0x234);
    assert_eq!(v, VirtualAddress(0x1234));
    v.sub_assign_bytes(0x2000);
    assert_eq!(v, VirtualAddress(0));

    let mut p = PhysicalAddress(usize::MAX);
    p.add_assign_bytes(1);
    assert_eq!(p, PhysicalAddress(usize::MAX));
    p.sub_assign_bytes(usize::MAX);
    assert_eq!(p, PhysicalAddress(0));
}

#[test]
fn bitwise_operations_are_value_wise() {
    assert_eq!(VirtualAddress(0xff00).bit_and(0x0ff0), VirtualAddress(0x0f00));
    assert_eq!(VirtualAddress(0xff00).bit_or(0x0ff0), VirtualAddress(0xfff0));
    assert_eq!(VirtualAddress(0xff00).bit_xor(0x0ff0), VirtualAddress(0xf0f0));
    assert_eq!(PhysicalAddress(0b1010).bit_and(0b0110), PhysicalAddress(0b0010));
    assert_eq!(PhysicalAddress(0b1010).bit_or(0b0110), PhysicalAddress(0b1110));
    assert_eq!(PhysicalAddress(0b1010).bit_xor(0b0110), PhysicalAddress(0b1100));
}

#[test]
fn addresses_unwrap_into_machine_words() {
    assert_eq!(usize::from(VirtualAddress(0x1234)), 0x1234);
    assert_eq!(usize::from(PhysicalAddress(0xabcd)), 0xabcd);
}

#[test]
fn unit_arithmetic_saturates() {
    // Additions clamp at the largest valid unit index; subtractions at zero.
    assert_eq!(Frame { number: MAX_PAGE_NUMBER }.add_frames(1),
        Frame { number: MAX_PAGE_NUMBER });
    assert_eq!(Frame { number: 0 }.sub_frames(1), Frame { number: 0 });
    assert_eq!(Page { number: MAX_PAGE_NUMBER }.add_pages(1),
        Page { number: MAX_PAGE_NUMBER });
    assert_eq!(Page { number: 0 }.sub_pages(1), Page { number: 0 });

    assert_eq!(Frame { number: 5 }.add_frames(7), Frame { number: 12 });
    assert_eq!(Frame { number: 5 }.sub_frames(2), Frame { number: 3 });
    assert_eq!(Page { number: usize::MAX / PAGE_SIZE - 1 }.add_pages(usize::MAX),
        Page { number: MAX_PAGE_NUMBER });

    let mut f = Frame { number: MAX_PAGE_NUMBER - 1 };
    f.add_assign_frames(100);
    assert_eq!(f, Frame { number: MAX_PAGE_NUMBER });
    f.sub_assign_frames(MAX_PAGE_NUMBER);
    assert_eq!(f, Frame { number: 0 });

    let mut p = Page { number: 9 };
    p.add_assign_pages(1);
    assert_eq!(p, Page { number: 10 });
    p.sub_assign_pages(11);
    assert_eq!(p, Page { number: 0 });
}

#[test]
fn stepping_between_units() {
    assert_eq!(Frame::steps_between(&Frame { number: 3 }, &Frame { number: 7 }), Some(4));
    assert_eq!(Frame::steps_between(&Frame { number: 7 }, &Frame { number: 3 }), None);
    assert_eq!(Frame::steps_between(&Frame { number: 3 }, &Frame { number: 3 }), Some(0));
    assert_eq!(Page::steps_between(&Page { number: 0 }, &Page { number: 1 }), Some(1));
    assert_eq!(Page::steps_between(&Page { number: 1 }, &Page { number: 0 }), None);

    assert_eq!(Frame::forward_checked(Frame { number: 3 }, 4), Some(Frame { number: 7 }));
    assert_eq!(Frame::forward_checked(Frame { number: usize::MAX }, 1), None);
    assert_eq!(Frame::backward_checked(Frame { number: 3 }, 3), Some(Frame { number: 0 }));
    assert_eq!(Frame::backward_checked(Frame { number: 3 }, 4), None);
    assert_eq!(Page::forward_checked(Page { number: usize::MAX - 1 }, 1),
        Some(Page { number: usize::MAX }));
    assert_eq!(Page::backward_checked(Page { number: 0 }, 1), None);
}
