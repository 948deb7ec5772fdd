//! Virtual and physical addresses of the x86_64 architecture.

use vstd::arithmetic::power2::{lemma_pow2_adds, pow2};
use vstd::bits::{lemma_u64_low_bits_mask_is_mod, lemma_u64_pow2_no_overflow, low_bits_mask};
use vstd::prelude::*;

verus! {

/// A virtual address is accepted when its upper sixteen bits are all zero or all
/// one, that is when it lies in the lowest or in the highest 2^48 values.
pub open spec fn is_canonical(raw: u64) -> bool {
    raw <= 0x0000_FFFF_FFFF_FFFF || raw >= 0xFFFF_0000_0000_0000
}

/// A physical address is accepted when no bit above bit 51 is set.
pub open spec fn is_physical(raw: u64) -> bool {
    raw <= 0x000F_FFFF_FFFF_FFFF
}

/// `n` is 2 to the power of some `k` below 64.
pub open spec fn is_power_of_two(n: u64) -> bool {
    exists|k: nat| k < 64 && n == pow2(k)
}

/// The largest multiple of `alignment` that is not above `value`.
pub open spec fn round_down(value: int, alignment: int) -> int {
    value - value % alignment
}

/// The smallest multiple of `alignment` that is not below `value`.
pub open spec fn round_up(value: int, alignment: int) -> int {
    round_down(value + alignment - 1, alignment)
}

/// The low twelve bits of an address: the offset within a 4 KiB page.
pub open spec fn page_offset_bits(raw: u64) -> u64 {
    raw & 0x0FFF
}

/// The nine-bit page-table index that starts at bit `shift` of an address.
pub open spec fn table_index_bits(raw: u64, shift: u64) -> u64 {
    (raw >> shift) & 0x01FF
}

/// In bits: an address is canonical exactly when bits 48 to 63 are all zero or
/// all one, and physical exactly when bits 52 to 63 are all zero.
pub proof fn lemma_validity_in_bits(raw: u64)
    by (bit_vector)
    ensures
        raw <= 0x0000_FFFF_FFFF_FFFF <==> raw >> 48 == 0,
        raw >= 0xFFFF_0000_0000_0000 <==> raw >> 48 == 0xFFFF,
        raw <= 0x000F_FFFF_FFFF_FFFF <==> raw >> 52 == 0,
{
}

/// The page offset and the four table indices in arithmetic: the offset is the
/// remainder by 4096, and each index is a base-512 digit of the page number.
pub proof fn lemma_fields_in_arithmetic(raw: u64)
    by (bit_vector)
    ensures
        page_offset_bits(raw) == raw % 0x1000,
        table_index_bits(raw, 12) == (raw / 0x1000) % 512,
        table_index_bits(raw, 21) == (raw / 0x20_0000) % 512,
        table_index_bits(raw, 30) == (raw / 0x4000_0000) % 512,
        table_index_bits(raw, 39) == (raw / 0x80_0000_0000) % 512,
{
}

/// The page offset and the four table indices partition the low 48 bits of an
/// address: put back at their places they give those 48 bits again.
pub proof fn lemma_indices_partition(raw: u64)
    by (bit_vector)
    ensures
        page_offset_bits(raw) | (table_index_bits(raw, 12) << 12) | (table_index_bits(raw, 21)
            << 21) | (table_index_bits(raw, 30) << 30) | (table_index_bits(raw, 39) << 39) == raw
            & 0x0000_FFFF_FFFF_FFFF,
{
}

/// For a power of two, masking with it less one gives the remainder, and
/// masking with the complement of that rounds down.
pub proof fn lemma_mask_rounds(raw: u64, alignment: u64)
    requires
        is_power_of_two(alignment),
    ensures
        alignment >= 1,
        raw & ((alignment - 1) as u64) == raw % alignment,
        raw & !((alignment - 1) as u64) == round_down(raw as int, alignment as int),
{
    let k = choose|k: nat| k < 64 && alignment == pow2(k);
    lemma_u64_pow2_no_overflow(k);
    lemma_u64_low_bits_mask_is_mod(raw, k);
    let mask = (alignment - 1) as u64;
    assert(mask == low_bits_mask(k) as u64);
    assert(raw & !mask == raw - (raw & mask)) by (bit_vector);
}

/// Rounding brackets a value: rounding down gives the multiple of `alignment`
/// at most `alignment - 1` below it, rounding up the multiple at most
/// `alignment - 1` above it.
pub proof fn lemma_rounding_brackets(value: int, alignment: int)
    by (nonlinear_arith)
    requires
        0 <= value,
        0 < alignment,
    ensures
        round_down(value, alignment) <= value < round_down(value, alignment) + alignment,
        value <= round_up(value, alignment) < value + alignment,
        round_down(value, alignment) % alignment == 0,
        round_up(value, alignment) % alignment == 0,
        value % alignment == 0 ==> round_up(value, alignment) == value,
        value % alignment != 0 ==> round_up(value, alignment) == round_down(value, alignment)
            + alignment,
{
}

/// For a canonical address and an alignment that is a power of two: the
/// address rounded down is at most `alignment - 1` below the address, the
/// address rounded up is not below it, and both are multiples of the
/// alignment.
pub proof fn lemma_aligned_addresses(address: u64, alignment: u64)
    requires
        is_canonical(address),
        is_power_of_two(alignment),
    ensures
        round_down(address as int, alignment as int) <= address < round_down(
            address as int,
            alignment as int,
        ) + alignment,
        round_up(address as int, alignment as int) >= address,
        round_down(address as int, alignment as int) % (alignment as int) == 0,
        round_up(address as int, alignment as int) % (alignment as int) == 0,
{
    lemma_mask_rounds(address, alignment);
    lemma_rounding_brackets(address as int, alignment as int);
}

/// A multiple of `alignment` that is not above `value` is not above the
/// rounded-down value either.
proof fn lemma_round_down_is_greatest(value: int, alignment: int, factor: int)
    by (nonlinear_arith)
    requires
        0 < alignment,
        0 <= factor * alignment <= value,
    ensures
        factor * alignment <= round_down(value, alignment),
{
    let quotient = value / alignment;
    assert(value == quotient * alignment + value % alignment);
    assert(factor <= quotient) by {
        if factor > quotient {
            assert(factor * alignment >= (quotient + 1) * alignment);
        }
    }
    assert(factor * alignment <= quotient * alignment);
}

/// Rounding a canonical address down keeps it canonical, unless it lies in
/// the upper half and the alignment is above 2^48.
pub proof fn lemma_align_down_canonical(raw: u64, alignment: u64)
    requires
        is_canonical(raw),
        is_power_of_two(alignment),
        raw <= 0x0000_FFFF_FFFF_FFFF || alignment <= 0x0001_0000_0000_0000,
    ensures
        0 <= round_down(raw as int, alignment as int) <= raw,
        is_canonical(round_down(raw as int, alignment as int) as u64),
{
    lemma_mask_rounds(raw, alignment);
    lemma_rounding_brackets(raw as int, alignment as int);
    if raw > 0x0000_FFFF_FFFF_FFFF {
        let k = choose|k: nat| k < 64 && alignment == pow2(k);
        vstd::arithmetic::power2::lemma2_to64_rest();
        if k > 48 {
            vstd::arithmetic::power2::lemma_pow2_strictly_increases(48, k);
        }
        let rest = (48 - k) as nat;
        lemma_pow2_adds(k, rest);
        let factor = 0xFFFF * pow2(rest);
        assert(factor * alignment == 0xFFFF * (pow2(k) * pow2(rest))) by (nonlinear_arith)
            requires
                factor == 0xFFFF * pow2(rest),
                alignment == pow2(k),
        ;
        lemma_round_down_is_greatest(raw as int, alignment as int, factor as int);
    }
}

/// A validated 64-bit virtual address.
#[derive(Debug, Clone, Copy, PartialEq, Eq, PartialOrd, Ord)]
pub struct VirtualAddress(u64);

/// The raw value that was refused as a virtual address.
#[derive(Debug)]
pub struct InvalidVirtualAddress(pub u64);

impl View for VirtualAddress {
    type V = u64;

    closed spec fn view(&self) -> u64 {
        self.0
    }
}

impl VirtualAddress {
    #[verifier::type_invariant]
    closed spec fn inv(self) -> bool {
        is_canonical(self.0)
    }

    /// The address zero.
    pub fn zero() -> (r: Self)
        ensures
            r@ == 0,
    {
        VirtualAddress(0)
    }

    /// Wraps a raw value that is known to be canonical.
    pub fn new(address: u64) -> (r: Self)
        requires
            is_canonical(address),
        ensures
            r@ == address,
    {
        VirtualAddress(address)
    }

    /// Validates `address`, handing the raw value back when it is not canonical.
    pub fn try_new(address: u64) -> (r: Result<Self, InvalidVirtualAddress>)
        ensures
            is_canonical(address) ==> (r matches Ok(a) && a@ == address),
            !is_canonical(address) ==> (r matches Err(e) && e.0 == address),
    {
        proof {
            lemma_validity_in_bits(address);
        }
        match address >> 48 {
            0 | 0xFFFF => Ok(VirtualAddress(address)),
            _ => Err(InvalidVirtualAddress(address)),
        }
    }

    /// The raw 64-bit value, which is always canonical.
    pub fn raw(&self) -> (r: u64)
        ensures
            r == self@,
            is_canonical(r),
    {
        proof {
            use_type_invariant(self);
        }
        self.0
    }

    /// The offset of this address within its 4 KiB page.
    pub fn get_page_offset(self) -> (r: u16)
        ensures
            r == page_offset_bits(self@),
            r == self@ % 0x1000,
    {
        let raw: u64 = self.0;
        proof {
            lemma_fields_in_arithmetic(raw);
        }
        (raw & 0x0FFF) as u16
    }

    /// The index of this address in its level-one page table.
    pub fn get_level_one_pt_index(self) -> (r: usize)
        ensures
            r == table_index_bits(self@, 12),
            r == (self@ / 0x1000) % 512,
    {
        let raw: u64 = self.0;
        proof {
            lemma_fields_in_arithmetic(raw);
        }
        ((raw >> 12) & 0x01FF) as usize
    }

    /// The index of this address in its level-two page table.
    pub fn get_level_two_pt_index(self) -> (r: usize)
        ensures
            r == table_index_bits(self@, 21),
            r == (self@ / 0x20_0000) % 512,
    {
        let raw: u64 = self.0;
        proof {
            lemma_fields_in_arithmetic(raw);
        }
        ((raw >> 21) & 0x01FF) as usize
    }

    /// The index of this address in its level-three page table.
    pub fn get_level_three_pt_index(self) -> (r: usize)
        ensures
            r == table_index_bits(self@, 30),
            r == (self@ / 0x4000_0000) % 512,
    {
        let raw: u64 = self.0;
        proof {
            lemma_fields_in_arithmetic(raw);
        }
        ((raw >> 30) & 0x01FF) as usize
    }

    /// The index of this address in its level-four page table.
    pub fn get_level_four_pt_index(self) -> (r: usize)
        ensures
            r == table_index_bits(self@, 39),
            r == (self@ / 0x80_0000_0000) % 512,
    {
        let raw: u64 = self.0;
        proof {
            lemma_fields_in_arithmetic(raw);
        }
        ((raw >> 39) & 0x01FF) as usize
    }

    /// Rounds this address down to a multiple of `alignment`, which is a
    /// power of two. The rounded address must be canonical itself: it always
    /// is but for an address in the upper half with an alignment above 2^48.
    pub fn align_down(self, alignment: u64) -> (r: Self)
        requires
            is_power_of_two(alignment),
            is_canonical(round_down(self@ as int, alignment as int) as u64),
        ensures
            r@ == round_down(self@ as int, alignment as int),
    {
        proof {
            lemma_mask_rounds(self.0, alignment);
        }
        if self.0 % alignment == 0 {
            self
        } else {
            let alignment_mask: u64 = !(alignment - 1);
            let aligned_address: u64 = self.0 & alignment_mask;
            VirtualAddress(aligned_address)
        }
    }

    /// Rounds this address up to a multiple of `alignment`, which is a power
    /// of two: the result of rounding `self + alignment - 1` down. The rounded
    /// address must be canonical itself.
    pub fn align_up(self, alignment: u64) -> (r: Self)
        requires
            is_power_of_two(alignment),
            round_up(self@ as int, alignment as int) <= u64::MAX,
            is_canonical(round_up(self@ as int, alignment as int) as u64),
        ensures
            r@ == round_up(self@ as int, alignment as int),
    {
        proof {
            lemma_mask_rounds(self.0, alignment);
            lemma_rounding_brackets(self.0 as int, alignment as int);
        }
        let remainder: u64 = self.0 % alignment;
        if remainder == 0 {
            self
        } else {
            VirtualAddress((self.0 - remainder) + alignment)
        }
    }
}

/// A validated physical address of at most 52 bits.
#[derive(Debug, Clone, Copy, PartialEq, Eq, PartialOrd, Ord)]
pub struct PhysicalAddress(u64);

/// The raw value that was refused as a physical address.
#[derive(Debug)]
pub struct InvalidPhysicalAddress(pub u64);

impl View for PhysicalAddress {
    type V = u64;

    closed spec fn view(&self) -> u64 {
        self.0
    }
}

impl PhysicalAddress {
    #[verifier::type_invariant]
    closed spec fn inv(self) -> bool {
        is_physical(self.0)
    }

    /// The address zero.
    pub fn zero() -> (r: Self)
        ensures
            r@ == 0,
    {
        PhysicalAddress(0)
    }

    /// Wraps a raw value that is known to fit in 52 bits.
    pub fn new(address: u64) -> (r: Self)
        requires
            is_physical(address),
        ensures
            r@ == address,
    {
        PhysicalAddress(address)
    }

    /// Validates `address`, handing the raw value back when a bit above bit 51
    /// is set.
    pub fn try_new(address: u64) -> (r: Result<Self, InvalidPhysicalAddress>)
        ensures
            is_physical(address) ==> (r matches Ok(a) && a@ == address),
            !is_physical(address) ==> (r matches Err(e) && e.0 == address),
    {
        proof {
            lemma_validity_in_bits(address);
        }
        match address >> 52 {
            0 => Ok(PhysicalAddress(address)),
            _ => Err(InvalidPhysicalAddress(address)),
        }
    }

    /// The raw 64-bit value, which always fits in 52 bits.
    pub fn raw(&self) -> (r: u64)
        ensures
            r == self@,
            is_physical(r),
    {
        proof {
            use_type_invariant(self);
        }
        self.0
    }

    /// Rounds this address down to a multiple of `alignment`, which is a
    /// power of two.
    pub fn align_down(self, alignment: u64) -> (r: Self)
        requires
            is_power_of_two(alignment),
        ensures
            r@ == round_down(self@ as int, alignment as int),
    {
        proof {
            use_type_invariant(self);
            lemma_mask_rounds(self.0, alignment);
            lemma_rounding_brackets(self.0 as int, alignment as int);
        }
        if self.0 % alignment == 0 {
            self
        } else {
            let alignment_mask: u64 = !(alignment - 1);
            let aligned_address: u64 = self.0 & alignment_mask;
            PhysicalAddress(aligned_address)
        }
    }

    /// Rounds this address up to a multiple of `alignment`, which is a power
    /// of two: the result of rounding `self + alignment - 1` down. The rounded
    /// address must fit in 52 bits itself.
    pub fn align_up(self, alignment: u64) -> (r: Self)
        requires
            is_power_of_two(alignment),
            round_up(self@ as int, alignment as int) <= 0x000F_FFFF_FFFF_FFFF,
        ensures
            r@ == round_up(self@ as int, alignment as int),
    {
        proof {
            lemma_mask_rounds(self.0, alignment);
            lemma_rounding_brackets(self.0 as int, alignment as int);
        }
        let remainder: u64 = self.0 % alignment;
        if remainder == 0 {
            self
        } else {
            PhysicalAddress((self.0 - remainder) + alignment)
        }
    }
}

} // verus!
