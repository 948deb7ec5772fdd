//! Segment descriptors, segment selectors and the global descriptor table.

use crate::memory::address::VirtualAddress;
use crate::structs::tss::TASK_STATE_SEGMENT_SIZE;
use vstd::prelude::*;

verus! {

/// The number of slots in the global descriptor table.
pub const GDT_ENTRIES: usize = 7;

/// An eight-byte segment descriptor, field by field in the order of the
/// hardware layout.
#[derive(Debug, Clone, Copy, PartialEq, Eq, Structural)]
pub struct SegmentDescriptor {
    pub limit_low: u16,
    pub base_low: u16,
    pub base_middle: u8,
    pub access: u8,
    pub granularity: u8,
    pub base_high: u8,
}

/// The eight bytes of a descriptor as one little-endian number: `limit_low`
/// in bits 0 to 15, `base_low` in 16 to 31, `base_middle` in 32 to 39, `access`
/// in 40 to 47, `granularity` in 48 to 55 and `base_high` in 56 to 63.
pub open spec fn descriptor_bits(d: SegmentDescriptor) -> int {
    d.limit_low + d.base_low * 0x1_0000 + d.base_middle * 0x1_0000_0000 + d.access
        * 0x100_0000_0000 + d.granularity * 0x1_0000_0000_0000 + d.base_high
        * 0x100_0000_0000_0000
}

/// The descriptor whose eight bytes are `bits`.
pub open spec fn descriptor_of_bits(bits: u64) -> SegmentDescriptor {
    SegmentDescriptor {
        limit_low: (bits % 0x1_0000) as u16,
        base_low: (bits / 0x1_0000 % 0x1_0000) as u16,
        base_middle: (bits / 0x1_0000_0000 % 0x100) as u8,
        access: (bits / 0x100_0000_0000 % 0x100) as u8,
        granularity: (bits / 0x1_0000_0000_0000 % 0x100) as u8,
        base_high: (bits / 0x100_0000_0000_0000) as u8,
    }
}

/// The privilege level in an access byte: bits 5 and 6.
pub open spec fn access_privilege_level(access: u8) -> u8 {
    (access / 32 % 4) as u8
}

/// The descriptor of the 64-bit system segment at `address` whose limit is
/// `limit`: the half that goes into the lower slot. It is an available 64-bit
/// task state segment (type 9), present, with privilege level 3.
pub open spec fn system_segment_low(address: u64, limit: u16) -> SegmentDescriptor {
    SegmentDescriptor {
        limit_low: limit,
        base_low: (address % 0x1_0000) as u16,
        base_middle: (address / 0x1_0000 % 0x100) as u8,
        access: 0xE9,
        granularity: 0x00,
        base_high: (address / 0x100_0000 % 0x100) as u8,
    }
}

/// The half of a system segment's descriptor that goes into the upper slot: it
/// holds bits 32 to 63 of the address in its first four bytes, and zero in
/// the others.
pub open spec fn system_segment_high(address: u64) -> SegmentDescriptor {
    SegmentDescriptor {
        limit_low: (address / 0x1_0000_0000 % 0x1_0000) as u16,
        base_low: (address / 0x1_0000_0000_0000) as u16,
        base_middle: 0,
        access: 0,
        granularity: 0,
        base_high: 0,
    }
}

/// The base address that the two halves of a system segment's descriptor
/// hold between them.
pub open spec fn system_segment_base(low: SegmentDescriptor, high: SegmentDescriptor) -> int {
    low.base_low + low.base_middle * 0x1_0000 + low.base_high * 0x100_0000 + high.limit_low
        * 0x1_0000_0000 + high.base_low * 0x1_0000_0000_0000
}

proof fn lemma_system_segment_digits(address: u64)
    by (bit_vector)
    ensures
        address & 0x0000_FFFF == address % 0x1_0000,
        (address & 0x00FF_0000) >> 16 == address / 0x1_0000 % 0x100,
        (address & 0xFF00_0000) >> 24 == address / 0x100_0000 % 0x100,
        (address & 0x0000_FFFF_0000_0000) >> 32 == address / 0x1_0000_0000 % 0x1_0000,
        (address & 0xFFFF_0000_0000_0000) >> 48 == address / 0x1_0000_0000_0000,
        address / 0x1_0000_0000_0000 <= 0xFFFF,
        address % 0x1_0000 + (address / 0x1_0000 % 0x100) * 0x1_0000 + (address / 0x100_0000
            % 0x100) * 0x100_0000 + (address / 0x1_0000_0000 % 0x1_0000) * 0x1_0000_0000 + (address
            / 0x1_0000_0000_0000) * 0x1_0000_0000_0000 == address,
{
}

proof fn lemma_descriptor_unpacking(bits: u64)
    by (bit_vector)
    ensures
        bits & 0xFFFF == bits % 0x1_0000,
        (bits >> 16) & 0xFFFF == bits / 0x1_0000 % 0x1_0000,
        (bits >> 32) & 0xFF == bits / 0x1_0000_0000 % 0x100,
        (bits >> 40) & 0xFF == bits / 0x100_0000_0000 % 0x100,
        (bits >> 48) & 0xFF == bits / 0x1_0000_0000_0000 % 0x100,
        bits >> 56 == bits / 0x100_0000_0000_0000,
        bits / 0x100_0000_0000_0000 <= 0xFF,
        bits % 0x1_0000 + (bits / 0x1_0000 % 0x1_0000) * 0x1_0000 + (bits / 0x1_0000_0000 % 0x100)
            * 0x1_0000_0000 + (bits / 0x100_0000_0000 % 0x100) * 0x100_0000_0000 + (bits
            / 0x1_0000_0000_0000 % 0x100) * 0x1_0000_0000_0000 + (bits / 0x100_0000_0000_0000)
            * 0x100_0000_0000_0000 == bits,
{
}

proof fn lemma_descriptor_packing(
    limit_low: u64,
    base_low: u64,
    base_middle: u64,
    access: u64,
    granularity: u64,
    base_high: u64,
    bits: u64,
)
    by (bit_vector)
    requires
        limit_low <= 0xFFFF,
        base_low <= 0xFFFF,
        base_middle <= 0xFF,
        access <= 0xFF,
        granularity <= 0xFF,
        base_high <= 0xFF,
        bits == limit_low | base_low << 16 | base_middle << 32 | access << 40 | granularity << 48
            | base_high << 56,
    ensures
        bits == limit_low + base_low * 0x1_0000 + base_middle * 0x1_0000_0000 + access
            * 0x100_0000_0000 + granularity * 0x1_0000_0000_0000 + base_high
            * 0x100_0000_0000_0000,
        bits % 0x1_0000 == limit_low,
        bits / 0x1_0000 % 0x1_0000 == base_low,
        bits / 0x1_0000_0000 % 0x100 == base_middle,
        bits / 0x100_0000_0000 % 0x100 == access,
        bits / 0x1_0000_0000_0000 % 0x100 == granularity,
        bits / 0x100_0000_0000_0000 == base_high,
{
}

proof fn lemma_access_privilege_level(access: u8)
    by (bit_vector)
    ensures
        (access >> 5) & 3 == access / 32 % 4,
{
}

/// The two halves of a system segment's descriptor hold the address they were
/// made from.
pub proof fn lemma_system_segment_holds_address(address: u64, limit: u16)
    ensures
        system_segment_base(system_segment_low(address, limit), system_segment_high(address))
            == address,
{
    lemma_system_segment_digits(address);
}

/// Taking a descriptor's eight bytes and reading them back gives the
/// descriptor again, and the other way round.
pub proof fn lemma_descriptor_bits_round_trip(d: SegmentDescriptor, bits: u64)
    ensures
        0 <= descriptor_bits(d) <= u64::MAX,
        descriptor_of_bits(descriptor_bits(d) as u64) == d,
        descriptor_bits(descriptor_of_bits(bits)) == bits,
{
    let packed = (d.limit_low as u64) | (d.base_low as u64) << 16 | (d.base_middle as u64) << 32 | (
    d.access as u64) << 40 | (d.granularity as u64) << 48 | (d.base_high as u64) << 56;
    lemma_descriptor_packing(
        d.limit_low as u64,
        d.base_low as u64,
        d.base_middle as u64,
        d.access as u64,
        d.granularity as u64,
        d.base_high as u64,
        packed,
    );
    lemma_descriptor_unpacking(bits);
}

impl SegmentDescriptor {
    /// The descriptor of slot 0: every bit zero.
    pub open spec fn null() -> SegmentDescriptor {
        SegmentDescriptor {
            limit_low: 0,
            base_low: 0,
            base_middle: 0,
            access: 0,
            granularity: 0,
            base_high: 0,
        }
    }

    /// A flat segment, base 0 and limit `0xF_FFFF` in units of 4 KiB, with
    /// the given access byte.
    pub open spec fn flat(access: u8) -> SegmentDescriptor {
        SegmentDescriptor {
            limit_low: 0xFFFF,
            base_low: 0,
            base_middle: 0,
            access,
            granularity: 0xAF,
            base_high: 0,
        }
    }

    /// The null descriptor: every bit zero.
    pub fn null_segment_descriptor() -> (r: SegmentDescriptor)
        ensures
            r == Self::null(),
            descriptor_bits(r) == 0,
    {
        SegmentDescriptor {
            limit_low: 0x0000,
            base_low: 0x0000,
            base_middle: 0x00,
            access: 0x00,
            granularity: 0x00,
            base_high: 0x00,
        }
    }

    /// The flat code segment of privilege level 0: access byte `0x9A`.
    pub fn kernel_code_segment_descriptor() -> (r: Self)
        ensures
            r == Self::flat(0x9A),
            descriptor_bits(r) == 0x00AF_9A00_0000_FFFF,
    {
        SegmentDescriptor {
            limit_low: 0xFFFF,
            base_low: 0x0000,
            base_middle: 0x00,
            access: 0x9A,
            granularity: 0xAF,
            base_high: 0x00,
        }
    }

    /// The flat data segment of privilege level 0: access byte `0x92`.
    pub fn kernel_data_segment_descriptor() -> (r: Self)
        ensures
            r == Self::flat(0x92),
            descriptor_bits(r) == 0x00AF_9200_0000_FFFF,
    {
        SegmentDescriptor {
            limit_low: 0xFFFF,
            base_low: 0x0000,
            base_middle: 0x00,
            access: 0x92,
            granularity: 0xAF,
            base_high: 0x00,
        }
    }

    /// The flat code segment of privilege level 3: access byte `0xFA`.
    pub fn user_code_segment_descriptor() -> (r: Self)
        ensures
            r == Self::flat(0xFA),
            descriptor_bits(r) == 0x00AF_FA00_0000_FFFF,
    {
        SegmentDescriptor {
            limit_low: 0xFFFF,
            base_low: 0x0000,
            base_middle: 0x00,
            access: 0xFA,
            granularity: 0xAF,
            base_high: 0x00,
        }
    }

    /// The flat data segment of privilege level 3: access byte `0xF2`.
    pub fn user_data_segment_descriptor() -> (r: Self)
        ensures
            r == Self::flat(0xF2),
            descriptor_bits(r) == 0x00AF_F200_0000_FFFF,
    {
        SegmentDescriptor {
            limit_low: 0xFFFF,
            base_low: 0x0000,
            base_middle: 0x00,
            access: 0xF2,
            granularity: 0xAF,
            base_high: 0x00,
        }
    }

    /// The two halves of the descriptor of the task state segment that lies at
    /// `tss_pointer`: the first for the lower slot, the second for the slot
    /// after it.
    pub fn tss_system_segment(tss_pointer: VirtualAddress) -> (r: (Self, Self))
        ensures
            r.0 == system_segment_low(tss_pointer@, (TASK_STATE_SEGMENT_SIZE - 1) as u16),
            r.1 == system_segment_high(tss_pointer@),
            system_segment_base(r.0, r.1) == tss_pointer@,
    {
        let address: u64 = tss_pointer.raw();
        proof {
            lemma_system_segment_digits(address);
        }
        let tss_system_segment_low = SegmentDescriptor {
            limit_low: (TASK_STATE_SEGMENT_SIZE - 1) as u16,
            base_low: (address & 0x0000_FFFF) as u16,
            base_middle: ((address & 0x00FF_0000) >> 16) as u8,
            access: 0xE9_u8,
            granularity: 0x00_u8,
            base_high: ((address & 0xFF00_0000) >> 24) as u8,
        };
        let tss_system_segment_high = SegmentDescriptor {
            limit_low: ((address & 0x0000_FFFF_0000_0000) >> 32) as u16,
            base_low: ((address & 0xFFFF_0000_0000_0000) >> 48) as u16,
            base_middle: 0,
            access: 0,
            granularity: 0,
            base_high: 0,
        };
        (tss_system_segment_low, tss_system_segment_high)
    }

    /// The privilege level that the access byte holds in bits 5 and 6.
    pub fn get_requested_privilege_level(&self) -> (r: u8)
        ensures
            r == access_privilege_level(self.access),
            r <= 3,
    {
        proof {
            lemma_access_privilege_level(self.access);
        }
        (self.access >> 5) & 3
    }

    /// The eight bytes of the descriptor as one little-endian number.
    pub fn to_bits(&self) -> (r: u64)
        ensures
            r == descriptor_bits(*self),
    {
        let bits: u64 = (self.limit_low as u64) | (self.base_low as u64) << 16 | (
        self.base_middle as u64) << 32 | (self.access as u64) << 40 | (self.granularity as u64)
            << 48 | (self.base_high as u64) << 56;
        proof {
            lemma_descriptor_packing(
                self.limit_low as u64,
                self.base_low as u64,
                self.base_middle as u64,
                self.access as u64,
                self.granularity as u64,
                self.base_high as u64,
                bits,
            );
        }
        bits
    }

    /// The descriptor whose eight bytes are `bits`.
    pub fn from_bits(bits: u64) -> (r: Self)
        ensures
            r == descriptor_of_bits(bits),
            descriptor_bits(r) == bits,
    {
        proof {
            lemma_descriptor_unpacking(bits);
        }
        SegmentDescriptor {
            limit_low: (bits & 0xFFFF) as u16,
            base_low: ((bits >> 16) & 0xFFFF) as u16,
            base_middle: ((bits >> 32) & 0xFF) as u8,
            access: ((bits >> 40) & 0xFF) as u8,
            granularity: ((bits >> 48) & 0xFF) as u8,
            base_high: (bits >> 56) as u8,
        }
    }
}

/// A segment selector: a slot of the descriptor table in bits 3 to 15, the
/// table indicator in bit 2 and the requested privilege level in bits 0 and 1.
#[derive(Debug, Clone, Copy, PartialEq, Eq, Structural)]
pub struct SegmentSelector(pub u16);

proof fn lemma_selector_bits(index: u16, level: u16)
    by (bit_vector)
    requires
        index < 0x2000,
        level <= 3,
    ensures
        (index << 3) | level == index * 8 + level,
        ((index << 3) | level) / 8 == index,
        ((index << 3) | level) % 4 == level,
        ((index << 3) | level) / 4 % 2 == 0,
{
}

impl SegmentSelector {
    /// The slot of the descriptor table that the selector names: its top
    /// thirteen bits.
    pub open spec fn index(self) -> u16 {
        self.0 / 8
    }

    /// The requested privilege level: the bottom two bits.
    pub open spec fn privilege_level(self) -> u16 {
        self.0 % 4
    }

    /// The selector of slot `index` with the requested privilege level
    /// `privilege_level`: the index shifted left by three, or-ed with the level.
    pub fn new(index: u16, privilege_level: u8) -> (r: SegmentSelector)
        ensures
            r.0 == (index << 3) | (privilege_level as u16),
            index < 0x2000 && privilege_level <= 3 ==> r.0 == index * 8 + privilege_level
                && r.index() == index && r.privilege_level() == privilege_level && r.0 / 4 % 2
                == 0,
    {
        proof {
            if index < 0x2000 && privilege_level <= 3 {
                lemma_selector_bits(index, privilege_level as u16);
            }
        }
        SegmentSelector(index << 3 | privilege_level as u16)
    }
}

/// What the processor is given to find a descriptor table: the table's size
/// in bytes less one, and the address of its first byte.
#[derive(Debug, Clone, Copy)]
pub struct GdtPointer {
    pub limit: u16,
    pub base: VirtualAddress,
}

/// The global descriptor table: seven slots, of which the first always holds
/// the null descriptor.
#[derive(Debug, Clone, Copy)]
pub struct GlobalDescriptorTable {
    descriptor_table: [SegmentDescriptor; 7],
}

impl View for GlobalDescriptorTable {
    type V = Seq<SegmentDescriptor>;

    closed spec fn view(&self) -> Seq<SegmentDescriptor> {
        self.descriptor_table@
    }
}

impl GlobalDescriptorTable {
    #[verifier::type_invariant]
    closed spec fn inv(self) -> bool {
        self.descriptor_table@[0] == SegmentDescriptor::null()
    }

    /// A table in which every slot holds the null descriptor.
    pub fn new() -> (r: GlobalDescriptorTable)
        ensures
            r@.len() == GDT_ENTRIES,
            forall|i: int| 0 <= i < GDT_ENTRIES ==> r@[i] == SegmentDescriptor::null(),
    {
        GlobalDescriptorTable {
            descriptor_table: [SegmentDescriptor::null_segment_descriptor();7],
        }
    }

    /// Writes `segment_desc` into slot `index` and returns the selector for
    /// it: the index in the top thirteen bits, the descriptor's privilege
    /// level in the bottom two. Slot 0 is not written to: it stays the null
    /// descriptor. A slot that was written before is overwritten.
    pub fn add_entry(&mut self, index: usize, segment_desc: SegmentDescriptor) -> (r:
        SegmentSelector)
        requires
            1 <= index < GDT_ENTRIES,
        ensures
            final(self)@ == old(self)@.update(index as int, segment_desc),
            final(self)@.len() == GDT_ENTRIES,
            final(self)@[0] == SegmentDescriptor::null(),
            r.0 == index * 8 + access_privilege_level(segment_desc.access),
            r.index() == index,
            r.privilege_level() == access_privilege_level(segment_desc.access),
    {
        proof {
            use_type_invariant(&*self);
        }
        self.descriptor_table[index] = segment_desc;
        SegmentSelector::new(index as u16, segment_desc.get_requested_privilege_level())
    }

    /// The descriptor in slot `index`. Slot 0 holds the null descriptor.
    pub fn entry(&self, index: usize) -> (r: SegmentDescriptor)
        requires
            index < GDT_ENTRIES,
        ensures
            r == self@[index as int],
            self@.len() == GDT_ENTRIES,
            self@[0] == SegmentDescriptor::null(),
    {
        proof {
            use_type_invariant(self);
        }
        self.descriptor_table[index]
    }

    /// The pointer to hand to the processor for a copy of this table that
    /// lies at `base`. The limit is the table's size in bytes less one.
    pub fn pointer(&self, base: VirtualAddress) -> (r: GdtPointer)
        ensures
            r.limit == GDT_ENTRIES * 8 - 1,
            r.base == base,
    {
        let limit = (GDT_ENTRIES * 8 - 1) as u16;
        GdtPointer { limit, base }
    }

    /// The table as the processor reads it: eight bytes for each slot, as
    /// little-endian numbers.
    pub fn to_bits(&self) -> (r: [u64; 7])
        ensures
            forall|i: int| 0 <= i < GDT_ENTRIES ==> r@[i] == descriptor_bits(#[trigger] self@[i]),
            r@[0] == 0,
    {
        proof {
            use_type_invariant(self);
        }
        let mut bits: [u64; 7] = [0;7];
        let mut i: usize = 0;
        while i < GDT_ENTRIES
            invariant
                i <= GDT_ENTRIES,
                forall|j: int| 0 <= j < i ==> bits@[j] == descriptor_bits(#[trigger] self@[j]),
            decreases GDT_ENTRIES - i,
        {
            bits[i] = self.descriptor_table[i].to_bits();
            i += 1;
        }
        assert(bits@[0] == descriptor_bits(self@[0]));
        bits
    }
}

/// The table after the descriptors of `entries` are written to it one after
/// the other, each to its slot.
pub open spec fn with_entries(
    table: Seq<SegmentDescriptor>,
    entries: Seq<(int, SegmentDescriptor)>,
) -> Seq<SegmentDescriptor>
    decreases entries.len(),
{
    if entries.len() == 0 {
        table
    } else {
        with_entries(table, entries.drop_last()).update(entries.last().0, entries.last().1)
    }
}

/// Slot 0 holds the null descriptor however many entries are added to the
/// slots from 1 on.
pub proof fn lemma_null_slot_stays(
    table: Seq<SegmentDescriptor>,
    entries: Seq<(int, SegmentDescriptor)>,
)
    requires
        table.len() == GDT_ENTRIES,
        table[0] == SegmentDescriptor::null(),
        forall|i: int| 0 <= i < entries.len() ==> 1 <= (#[trigger] entries[i]).0 < GDT_ENTRIES,
    ensures
        with_entries(table, entries).len() == GDT_ENTRIES,
        with_entries(table, entries)[0] == SegmentDescriptor::null(),
        descriptor_bits(with_entries(table, entries)[0]) == 0,
    decreases entries.len(),
{
    if entries.len() > 0 {
        let earlier = entries.drop_last();
        assert forall|i: int| 0 <= i < earlier.len() implies 1 <= (#[trigger] earlier[i]).0
            < GDT_ENTRIES by {
            assert(earlier[i] == entries[i]);
        }
        assert(entries.last() == entries[entries.len() - 1]);
        lemma_null_slot_stays(table, earlier);
    }
}

/// The selectors of the five segments that the kernel's table holds.
#[derive(Debug, Clone, Copy)]
pub struct Selectors {
    pub kernel_code_segment: SegmentSelector,
    pub kernel_data_segment: SegmentSelector,
    pub user_code_segment: SegmentSelector,
    pub user_data_segment: SegmentSelector,
    pub tss_system_segment: SegmentSelector,
}

/// The slots of the kernel's table, for a task state segment at `tss_address`:
/// the null descriptor, the four flat segments, and the two halves of the
/// descriptor of the task state segment.
pub open spec fn kernel_gdt_slots(tss_address: u64) -> Seq<SegmentDescriptor> {
    seq![
        SegmentDescriptor::null(),
        SegmentDescriptor::flat(0x9A),
        SegmentDescriptor::flat(0x92),
        SegmentDescriptor::flat(0xFA),
        SegmentDescriptor::flat(0xF2),
        system_segment_low(tss_address, (TASK_STATE_SEGMENT_SIZE - 1) as u16),
        system_segment_high(tss_address),
    ]
}

/// Builds the kernel's table for a task state segment that lies at
/// `tss_pointer`, and the selectors of its segments.
pub fn kernel_gdt(tss_pointer: VirtualAddress) -> (r: (GlobalDescriptorTable, Selectors))
    ensures
        r.0@ == kernel_gdt_slots(tss_pointer@),
        r.1.kernel_code_segment.0 == 0x08,
        r.1.kernel_data_segment.0 == 0x10,
        r.1.user_code_segment.0 == 0x1B,
        r.1.user_data_segment.0 == 0x23,
        r.1.tss_system_segment.0 == 0x2B,
{
    let mut gdt = GlobalDescriptorTable::new();
    // the null segment descriptor is left alone as the 0th entry of the GDT
    let kernel_code_segment = gdt.add_entry(
        1,
        SegmentDescriptor::kernel_code_segment_descriptor(),
    );
    let kernel_data_segment = gdt.add_entry(
        2,
        SegmentDescriptor::kernel_data_segment_descriptor(),
    );
    let user_code_segment = gdt.add_entry(3, SegmentDescriptor::user_code_segment_descriptor());
    let user_data_segment = gdt.add_entry(4, SegmentDescriptor::user_data_segment_descriptor());
    let (tss_system_segment_low, tss_system_segment_high) = SegmentDescriptor::tss_system_segment(
        tss_pointer,
    );
    let tss_system_segment = gdt.add_entry(5, tss_system_segment_low);
    // nothing refers to the second slot of a system segment by a selector
    let _ = gdt.add_entry(6, tss_system_segment_high);
    let selectors = Selectors {
        kernel_code_segment,
        kernel_data_segment,
        user_code_segment,
        user_data_segment,
        tss_system_segment,
    };
    (gdt, selectors)
}

} // verus!
