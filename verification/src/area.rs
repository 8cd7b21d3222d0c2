//! Plain descriptor records exchanged with the boot environment: a
//! firmware-reported physical memory region and the address bounds of the
//! boot image's sections.

use vstd::prelude::*;
use crate::addr::{PhysicalAddress, VirtualAddress};

verus! {

/// An area of physical memory, as one entry of the firmware-supplied
/// physical memory map. The field order (`base_addr`, `size_in_bytes`,
/// `typ`, `acpi`) mirrors the firmware's entry format; it reflects
/// faithfully what the firmware supplied and carries no further invariant.
#[derive(Clone, Copy, PartialEq, Eq, Structural, Debug)]
pub struct PhysicalMemoryArea {
    pub base_addr: PhysicalAddress,
    pub size_in_bytes: usize,
    pub typ: u32,
    pub acpi: u32,
}

impl PhysicalMemoryArea {
    /// Builds the record from its four fields; construction is total.
    pub fn new(paddr: PhysicalAddress, size_in_bytes: usize, typ: u32, acpi: u32) -> (r:
        PhysicalMemoryArea)
        ensures
            r == (PhysicalMemoryArea { base_addr: paddr, size_in_bytes, typ, acpi }),
    {
        PhysicalMemoryArea { base_addr: paddr, size_in_bytes, typ, acpi }
    }
}

impl Default for PhysicalMemoryArea {
    /// The default area is all zeroes.
    fn default() -> (r: PhysicalMemoryArea)
        ensures
            r == (PhysicalMemoryArea {
                base_addr: PhysicalAddress(0),
                size_in_bytes: 0,
                typ: 0,
                acpi: 0,
            }),
    {
        PhysicalMemoryArea { base_addr: PhysicalAddress(0), size_in_bytes: 0, typ: 0, acpi: 0 }
    }
}

/// The address bounds of one boot-image region: the starting and ending
/// (virtual, physical) address pairs.
#[derive(Clone, Copy, Debug)]
pub struct SectionMemoryBounds {
    /// The starting virtual address and physical address.
    pub start: (VirtualAddress, PhysicalAddress),
    /// The ending virtual address and physical address.
    pub end: (VirtualAddress, PhysicalAddress),
}

/// The address bounds of the initial kernel sections that need mapping,
/// grouped by protection flags.
///
/// It contains three main items, in which each item includes all sections
/// that have identical flags:
/// * The `text` bounds cover all sections that are executable.
/// * The `rodata` bounds cover those that are read-only.
/// * The `data` bounds cover those that are writable.
///
/// It also contains the stack bounds, which are maintained separately.
/// No overlap invariant is enforced here; the producer is responsible for
/// supplying non-overlapping, correctly classified bounds.
#[derive(Clone, Copy, Debug)]
pub struct AggregatedSectionMemoryBounds {
    pub text: SectionMemoryBounds,
    pub rodata: SectionMemoryBounds,
    pub data: SectionMemoryBounds,
    pub stack: SectionMemoryBounds,
}

} // verus!
