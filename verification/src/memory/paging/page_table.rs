//! Page tables and the register that points at the root table.

use crate::memory::address::PhysicalAddress;
use vstd::prelude::*;

verus! {

/// The number of entries in a page table.
pub const PAGE_TABLE_ENTRIES: usize = 512;

/// The bits of the page-table-root register that hold the address of the root
/// table: bits 12 to 51. The low twelve bits are flags.
pub const ROOT_TABLE_ADDRESS_MASK: u64 = 0x000F_FFFF_FFFF_F000;

/// The physical address of the root page table, from the value read out of
/// the page-table-root register.
pub fn root_table_address(register: u64) -> (r: PhysicalAddress)
    ensures
        r@ == register & ROOT_TABLE_ADDRESS_MASK,
        r@ == (register % 0x10_0000_0000_0000) - (register % 0x1000),
{
    let address: u64 = register & ROOT_TABLE_ADDRESS_MASK;
    assert(address <= 0x000F_FFFF_FFFF_FFFF && address == (register % 0x10_0000_0000_0000) - (
    register % 0x1000)) by (bit_vector)
        requires
            address == register & 0x000F_FFFF_FFFF_F000,
    ;
    PhysicalAddress::new(address)
}

/// One entry of a page table.
#[derive(Debug, Clone, Copy)]
pub struct PageTableEntry(u64);

impl View for PageTableEntry {
    type V = u64;

    closed spec fn view(&self) -> u64 {
        self.0
    }
}

impl PageTableEntry {
    /// An entry with no bit set, which maps nothing.
    pub fn new() -> (r: Self)
        ensures
            r@ == 0,
    {
        PageTableEntry(0)
    }

    /// The 64 bits of the entry.
    pub fn bits(&self) -> (r: u64)
        ensures
            r == self@,
    {
        self.0
    }
}

/// A page table: 512 entries.
#[derive(Debug, Clone, Copy)]
pub struct PageTable {
    table: [PageTableEntry; PAGE_TABLE_ENTRIES],
}

} // verus!
