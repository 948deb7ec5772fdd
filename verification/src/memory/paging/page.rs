//! Pages of virtual memory.

use crate::memory::address::{
    is_canonical, is_power_of_two, lemma_align_down_canonical, round_down, VirtualAddress,
};
use crate::memory::paging::consts::PageSize;
use vstd::arithmetic::power2::{lemma2_to64, pow2};
use vstd::prelude::*;

verus! {

/// Both page sizes are powers of two.
pub proof fn lemma_page_size_is_power_of_two(page_size: PageSize)
    ensures
        is_power_of_two(page_size.bytes()),
{
    lemma2_to64();
    match page_size {
        PageSize::NORMAL => {
            assert(0x1000 == pow2(12));
        },
        PageSize::LARGE => {
            assert(0x20_0000 == pow2(21));
        },
    }
}

/// A page: its size and the address at which it starts.
pub struct Page {
    size: PageSize,
    offset: VirtualAddress,
}

impl Page {
    /// The size of the page.
    pub closed spec fn page_size(&self) -> PageSize {
        self.size
    }

    /// The raw address at which the page starts.
    pub closed spec fn start(&self) -> u64 {
        self.offset@
    }

    #[verifier::type_invariant]
    closed spec fn inv(self) -> bool {
        self.offset@ % self.size.bytes() == 0
    }

    /// The page of size `page_size` that holds `virtual_address`: it starts at
    /// the address rounded down to the page size.
    pub fn from_address_aligned(virtual_address: VirtualAddress, page_size: PageSize) -> (r: Self)
        ensures
            r.page_size() == page_size,
            r.start() == round_down(virtual_address@ as int, page_size.bytes() as int),
            r.start() <= virtual_address@ < r.start() + page_size.bytes(),
            r.start() % page_size.bytes() == 0,
    {
        let raw: u64 = virtual_address.raw();
        let bytes: u64 = page_size.size();
        proof {
            lemma_page_size_is_power_of_two(page_size);
            lemma_align_down_canonical(raw, bytes);
            crate::memory::address::lemma_rounding_brackets(raw as int, bytes as int);
        }
        let aligned_address = virtual_address.align_down(bytes);
        Page { size: page_size, offset: aligned_address }
    }

    /// The size of the page.
    pub fn size(&self) -> (r: PageSize)
        ensures
            r == self.page_size(),
    {
        self.size
    }

    /// The address at which the page starts, a multiple of the page size.
    pub fn offset(&self) -> (r: VirtualAddress)
        ensures
            r@ == self.start(),
            r@ % self.page_size().bytes() == 0,
    {
        proof {
            use_type_invariant(self);
        }
        self.offset
    }
}

} // verus!
