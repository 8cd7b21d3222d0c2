//! Virtual and physical address types: machine-word wrappers with
//! canonicalization (a no-op on this architecture), saturating byte
//! arithmetic, and the offset-within-unit query.

use vstd::prelude::*;
use crate::{spec_saturating_add, spec_saturating_sub, unit_offset, PAGE_SIZE};

verus! {

/// A virtual memory address, which is a `usize` under the hood.
///
/// Always canonical: on this architecture every bit pattern is a valid
/// virtual address, so canonicalization accepts the value unchanged.
#[derive(Clone, Copy, PartialEq, Eq, Structural, PartialOrd, Ord, Hash, Debug)]
pub struct VirtualAddress(pub usize);

impl VirtualAddress {
    /// Creates a new `VirtualAddress`.
    ///
    /// The fallible signature is retained for forward compatibility with
    /// architectures whose canonical-address rule rejects some values; on
    /// this architecture it always succeeds.
    pub fn new(virt_addr: usize) -> (r: Result<VirtualAddress, &'static str>)
        ensures
            r == Ok::<VirtualAddress, &'static str>(VirtualAddress(virt_addr)),
    {
        Ok(Self::new_canonical(virt_addr))
    }

    /// Creates a new `VirtualAddress` that is guaranteed to be canonical.
    /// On this architecture every value is canonical, so the value is kept
    /// unchanged.
    pub fn new_canonical(virt_addr: usize) -> (r: VirtualAddress)
        ensures
            r.0 == virt_addr,
    {
        VirtualAddress(virt_addr)
    }

    /// Creates a `VirtualAddress` with the value 0.
    pub fn zero() -> (r: VirtualAddress)
        ensures
            r.0 == 0,
    {
        VirtualAddress(0)
    }

    /// Returns the underlying `usize` value for this `VirtualAddress`.
    #[inline]
    pub fn value(&self) -> (r: usize)
        ensures
            r == self.0,
    {
        self.0
    }

    /// Returns the offset that this `VirtualAddress` specifies into its
    /// containing memory `Page`: the low-order bits below the unit
    /// boundary, extracted with a bitmask (valid because `PAGE_SIZE` is a
    /// power of two).
    pub fn page_offset(&self) -> (r: usize)
        ensures
            r == unit_offset(self.0 as int),
    {
        proof {
            lemma_page_size_mask_is_mod(self.0);
        }
        self.0 & (PAGE_SIZE - 1)
    }

    /// Adds a byte count, saturating at the maximum representable address.
    pub fn add_bytes(self, rhs: usize) -> (r: VirtualAddress)
        ensures
            r.0 == spec_saturating_add(self.0, rhs),
    {
        VirtualAddress::new_canonical(self.0.saturating_add(rhs))
    }

    /// Adds a byte count in place, saturating at the maximum representable
    /// address.
    pub fn add_assign_bytes(&mut self, rhs: usize)
        ensures
            final(self).0 == spec_saturating_add(old(self).0, rhs),
    {
        *self = VirtualAddress::new_canonical(self.0.saturating_add(rhs));
    }

    /// Subtracts a byte count, saturating at zero.
    pub fn sub_bytes(self, rhs: usize) -> (r: VirtualAddress)
        ensures
            r.0 == spec_saturating_sub(self.0, rhs),
    {
        VirtualAddress::new_canonical(self.0.saturating_sub(rhs))
    }

    /// Subtracts a byte count in place, saturating at zero.
    pub fn sub_assign_bytes(&mut self, rhs: usize)
        ensures
            final(self).0 == spec_saturating_sub(old(self).0, rhs),
    {
        *self = VirtualAddress::new_canonical(self.0.saturating_sub(rhs));
    }

    /// Bitwise AND of the address's raw word with `rhs`, value-wise.
    pub fn bit_and(self, rhs: usize) -> (r: VirtualAddress)
        ensures
            r.0 == (self.0 & rhs),
    {
        VirtualAddress(self.0 & rhs)
    }

    /// Bitwise OR of the address's raw word with `rhs`, value-wise.
    pub fn bit_or(self, rhs: usize) -> (r: VirtualAddress)
        ensures
            r.0 == (self.0 | rhs),
    {
        VirtualAddress(self.0 | rhs)
    }

    /// Bitwise XOR of the address's raw word with `rhs`, value-wise.
    pub fn bit_xor(self, rhs: usize) -> (r: VirtualAddress)
        ensures
            r.0 == (self.0 ^ rhs),
    {
        VirtualAddress(self.0 ^ rhs)
    }
}

impl From<VirtualAddress> for usize {
    /// Unwraps the address into its raw machine word.
    fn from(virt_addr: VirtualAddress) -> (r: usize) {
        virt_addr.0
    }
}

impl vstd::std_specs::convert::FromSpecImpl<VirtualAddress> for usize {
    open spec fn obeys_from_spec() -> bool {
        true
    }

    open spec fn from_spec(v: VirtualAddress) -> usize {
        v.0
    }
}

impl Default for VirtualAddress {
    /// The default virtual address is zero.
    fn default() -> (r: VirtualAddress)
        ensures
            r.0 == 0,
    {
        VirtualAddress(0)
    }
}

/// A physical memory address, which is a `usize` under the hood.
///
/// Always canonical: on this architecture every bit pattern is a valid
/// physical address, so canonicalization accepts the value unchanged.
#[derive(Clone, Copy, PartialEq, Eq, Structural, PartialOrd, Ord, Hash, Debug)]
pub struct PhysicalAddress(pub usize);

impl PhysicalAddress {
    /// Creates a new `PhysicalAddress`.
    ///
    /// The fallible signature is retained for forward compatibility with
    /// architectures whose canonical-address rule rejects some values; on
    /// this architecture it always succeeds.
    pub fn new(phys_addr: usize) -> (r: Result<PhysicalAddress, &'static str>)
        ensures
            r == Ok::<PhysicalAddress, &'static str>(PhysicalAddress(phys_addr)),
    {
        Ok(Self::new_canonical(phys_addr))
    }

    /// Creates a new `PhysicalAddress` that is guaranteed to be canonical.
    /// On this architecture every value is canonical, so the value is kept
    /// unchanged.
    pub fn new_canonical(phys_addr: usize) -> (r: PhysicalAddress)
        ensures
            r.0 == phys_addr,
    {
        PhysicalAddress(phys_addr)
    }

    /// Returns the underlying `usize` value for this `PhysicalAddress`.
    #[inline]
    pub fn value(&self) -> (r: usize)
        ensures
            r == self.0,
    {
        self.0
    }

    /// Creates a `PhysicalAddress` with the value 0.
    pub fn zero() -> (r: PhysicalAddress)
        ensures
            r.0 == 0,
    {
        PhysicalAddress(0)
    }

    /// Returns the offset that this `PhysicalAddress` specifies into its
    /// containing memory `Frame`: the low-order bits below the unit
    /// boundary, extracted with a bitmask (valid because `PAGE_SIZE` is a
    /// power of two).
    pub fn frame_offset(&self) -> (r: usize)
        ensures
            r == unit_offset(self.0 as int),
    {
        proof {
            lemma_page_size_mask_is_mod(self.0);
        }
        self.0 & (PAGE_SIZE - 1)
    }

    /// Adds a byte count, saturating at the maximum representable address.
    pub fn add_bytes(self, rhs: usize) -> (r: PhysicalAddress)
        ensures
            r.0 == spec_saturating_add(self.0, rhs),
    {
        PhysicalAddress::new_canonical(self.0.saturating_add(rhs))
    }

    /// Adds a byte count in place, saturating at the maximum representable
    /// address.
    pub fn add_assign_bytes(&mut self, rhs: usize)
        ensures
            final(self).0 == spec_saturating_add(old(self).0, rhs),
    {
        *self = PhysicalAddress::new_canonical(self.0.saturating_add(rhs));
    }

    /// Subtracts a byte count, saturating at zero.
    pub fn sub_bytes(self, rhs: usize) -> (r: PhysicalAddress)
        ensures
            r.0 == spec_saturating_sub(self.0, rhs),
    {
        PhysicalAddress::new_canonical(self.0.saturating_sub(rhs))
    }

    /// Subtracts a byte count in place, saturating at zero.
    pub fn sub_assign_bytes(&mut self, rhs: usize)
        ensures
            final(self).0 == spec_saturating_sub(old(self).0, rhs),
    {
        *self = PhysicalAddress::new_canonical(self.0.saturating_sub(rhs));
    }

    /// Bitwise AND of the address's raw word with `rhs`, value-wise.
    pub fn bit_and(self, rhs: usize) -> (r: PhysicalAddress)
        ensures
            r.0 == (self.0 & rhs),
    {
        PhysicalAddress(self.0 & rhs)
    }

    /// Bitwise OR of the address's raw word with `rhs`, value-wise.
    pub fn bit_or(self, rhs: usize) -> (r: PhysicalAddress)
        ensures
            r.0 == (self.0 | rhs),
    {
        PhysicalAddress(self.0 | rhs)
    }

    /// Bitwise XOR of the address's raw word with `rhs`, value-wise.
    pub fn bit_xor(self, rhs: usize) -> (r: PhysicalAddress)
        ensures
            r.0 == (self.0 ^ rhs),
    {
        PhysicalAddress(self.0 ^ rhs)
    }
}

impl From<PhysicalAddress> for usize {
    /// Unwraps the address into its raw machine word.
    fn from(phys_addr: PhysicalAddress) -> (r: usize) {
        phys_addr.0
    }
}

impl vstd::std_specs::convert::FromSpecImpl<PhysicalAddress> for usize {
    open spec fn obeys_from_spec() -> bool {
        true
    }

    open spec fn from_spec(v: PhysicalAddress) -> usize {
        v.0
    }
}

impl Default for PhysicalAddress {
    /// The default physical address is zero.
    fn default() -> (r: PhysicalAddress)
        ensures
            r.0 == 0,
    {
        PhysicalAddress(0)
    }
}

/// Masking an address with `PAGE_SIZE - 1` keeps exactly the remainder of
/// division by `PAGE_SIZE`. The proof is tied to `PAGE_SIZE == 0x1000`,
/// whose low-bit mask is the low 12 bits.
proof fn lemma_page_size_mask_is_mod(a: usize)
    ensures
        a & ((PAGE_SIZE - 1) as usize) == unit_offset(a as int),
{
    vstd::bits::lemma_usize_low_bits_mask_is_mod(a, 12);
    vstd::bits::lemma_low_bits_mask_values();
    vstd::arithmetic::power2::lemma2_to64();
}

} // verus!
