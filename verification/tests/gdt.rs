use flap_os::memory::address::VirtualAddress;
use flap_os::structs::gdt::{
    kernel_gdt, GlobalDescriptorTable, SegmentDescriptor, SegmentSelector, GDT_ENTRIES,
};

fn null() -> SegmentDescriptor {
    SegmentDescriptor {
        limit_low: 0,
        base_low: 0,
        base_middle: 0,
        access: 0,
        granularity: 0,
        base_high: 0,
    }
}

#[test]
fn null_descriptor_is_all_zero() {
    let descriptor = SegmentDescriptor::null_segment_descriptor();
    assert_eq!(descriptor, null());
    assert_eq!(descriptor.to_bits(), 0);
}

#[test]
fn flat_descriptors_have_their_bit_patterns() {
    let kernel_code = SegmentDescriptor::kernel_code_segment_descriptor();
    let kernel_data = SegmentDescriptor::kernel_data_segment_descriptor();
    let user_code = SegmentDescriptor::user_code_segment_descriptor();
    let user_data = SegmentDescriptor::user_data_segment_descriptor();
    assert_eq!(kernel_code.to_bits(), 0x00AF_9A00_0000_FFFF);
    assert_eq!(kernel_data.to_bits(), 0x00AF_9200_0000_FFFF);
    assert_eq!(user_code.to_bits(), 0x00AF_FA00_0000_FFFF);
    assert_eq!(user_data.to_bits(), 0x00AF_F200_0000_FFFF);
}

#[test]
fn flat_descriptors_field_by_field() {
    let code = SegmentDescriptor::kernel_code_segment_descriptor();
    assert_eq!(code.limit_low, 0xFFFF);
    assert_eq!(code.base_low, 0);
    assert_eq!(code.base_middle, 0);
    assert_eq!(code.access, 0x9A);
    assert_eq!(code.granularity, 0xAF);
    assert_eq!(code.base_high, 0);
    assert_eq!(SegmentDescriptor::kernel_data_segment_descriptor().access, 0x92);
    assert_eq!(SegmentDescriptor::user_code_segment_descriptor().access, 0xFA);
    assert_eq!(SegmentDescriptor::user_data_segment_descriptor().access, 0xF2);
}

#[test]
fn requested_privilege_level_is_bits_5_and_6_of_the_access_byte() {
    let level = |descriptor: SegmentDescriptor| descriptor.get_requested_privilege_level();
    assert_eq!(level(SegmentDescriptor::null_segment_descriptor()), 0);
    assert_eq!(level(SegmentDescriptor::kernel_code_segment_descriptor()), 0);
    assert_eq!(level(SegmentDescriptor::kernel_data_segment_descriptor()), 0);
    assert_eq!(level(SegmentDescriptor::user_code_segment_descriptor()), 3);
    assert_eq!(level(SegmentDescriptor::user_data_segment_descriptor()), 3);
    let mut descriptor = null();
    descriptor.access = 0b1010_0000;
    assert_eq!(descriptor.get_requested_privilege_level(), 1);
    descriptor.access = 0b0100_1111;
    assert_eq!(descriptor.get_requested_privilege_level(), 2);
}

#[test]
fn descriptor_bits_round_trip() {
    let descriptor = SegmentDescriptor {
        limit_low: 0x1234,
        base_low: 0x5678,
        base_middle: 0x9A,
        access: 0xBC,
        granularity: 0xDE,
        base_high: 0xF0,
    };
    assert_eq!(descriptor.to_bits(), 0xF0DE_BC9A_5678_1234);
    assert_eq!(SegmentDescriptor::from_bits(0xF0DE_BC9A_5678_1234), descriptor);
    assert_eq!(SegmentDescriptor::from_bits(u64::MAX).to_bits(), u64::MAX);
    assert_eq!(SegmentDescriptor::from_bits(0), null());
}

#[test]
fn tss_descriptor_of_an_address_in_the_upper_half() {
    let (low, high) =
        SegmentDescriptor::tss_system_segment(VirtualAddress::new(0xFFFF_8000_0010_0000));
    assert_eq!(low.limit_low, 103);
    assert_eq!(low.base_low, 0x0000);
    assert_eq!(low.base_middle, 0x10);
    assert_eq!(low.base_high, 0x00);
    assert_eq!(low.access, 0xE9);
    assert_eq!(low.granularity, 0x00);
    assert_eq!(high.limit_low, 0x8000);
    assert_eq!(high.base_low, 0xFFFF);
    assert_eq!(high.base_middle, 0);
    assert_eq!(high.access, 0);
    assert_eq!(high.granularity, 0);
    assert_eq!(high.base_high, 0);
}

#[test]
fn tss_descriptor_of_an_address_in_the_last_two_gib() {
    let (low, high) =
        SegmentDescriptor::tss_system_segment(VirtualAddress::new(0xFFFF_FFFF_8010_0000));
    assert_eq!(low.base_low, 0x0000);
    assert_eq!(low.base_middle, 0x10);
    assert_eq!(low.base_high, 0x80);
    assert_eq!(high.limit_low, 0xFFFF);
    assert_eq!(high.base_low, 0xFFFF);
    assert_eq!(high.access, 0);
}

#[test]
fn tss_descriptor_splits_every_byte_of_the_address() {
    let (low, high) =
        SegmentDescriptor::tss_system_segment(VirtualAddress::new(0x0000_1234_5678_9ABC));
    assert_eq!(low.base_low, 0x9ABC);
    assert_eq!(low.base_middle, 0x78);
    assert_eq!(low.base_high, 0x56);
    assert_eq!(high.limit_low, 0x1234);
    assert_eq!(high.base_low, 0x0000);
    assert_eq!(low.to_bits(), 0x5600_E978_9ABC_0067);
    assert_eq!(high.to_bits(), 0x0000_0000_0000_1234);
}

#[test]
fn selector_of_slot_5_at_level_0() {
    assert_eq!(SegmentSelector::new(5, 0).0, 0x0028);
}

#[test]
fn selector_holds_index_and_level() {
    assert_eq!(SegmentSelector::new(0, 0).0, 0);
    assert_eq!(SegmentSelector::new(1, 0).0, 0x08);
    assert_eq!(SegmentSelector::new(3, 3).0, 0x1B);
    assert_eq!(SegmentSelector::new(4, 3).0, 0x23);
    assert_eq!(SegmentSelector::new(0x1FFF, 3).0, 0xFFFB);
    assert_eq!(SegmentSelector::new(2, 1).0, 0x11);
}

#[test]
fn new_table_is_all_null() {
    let gdt = GlobalDescriptorTable::new();
    for index in 0..GDT_ENTRIES {
        assert_eq!(gdt.entry(index), null());
    }
    assert_eq!(gdt.to_bits(), [0u64; 7]);
}

#[test]
fn add_entry_writes_the_slot_and_returns_its_selector() {
    let mut gdt = GlobalDescriptorTable::new();
    let selector = gdt.add_entry(3, SegmentDescriptor::user_code_segment_descriptor());
    assert_eq!(selector.0, (3 << 3) | 3);
    assert_eq!(selector.0 >> 3, 3);
    assert_eq!(selector.0 & 3, 3);
    assert_eq!(gdt.entry(3), SegmentDescriptor::user_code_segment_descriptor());
    for index in [0usize, 1, 2, 4, 5, 6] {
        assert_eq!(gdt.entry(index), null());
    }
    let kernel = gdt.add_entry(1, SegmentDescriptor::kernel_code_segment_descriptor());
    assert_eq!(kernel.0, 0x08);
}

#[test]
fn add_entry_overwrites_a_slot() {
    let mut gdt = GlobalDescriptorTable::new();
    gdt.add_entry(2, SegmentDescriptor::user_data_segment_descriptor());
    let selector = gdt.add_entry(2, SegmentDescriptor::kernel_data_segment_descriptor());
    assert_eq!(selector.0, 0x10);
    assert_eq!(gdt.entry(2), SegmentDescriptor::kernel_data_segment_descriptor());
}

#[test]
fn slot_0_stays_null_whatever_is_added() {
    let mut gdt = GlobalDescriptorTable::new();
    for index in 1..GDT_ENTRIES {
        gdt.add_entry(index, SegmentDescriptor::user_code_segment_descriptor());
        assert_eq!(gdt.entry(0), null());
        assert_eq!(gdt.to_bits()[0], 0);
    }
}

#[test]
fn pointer_limit_is_the_size_less_one() {
    let gdt = GlobalDescriptorTable::new();
    let pointer = gdt.pointer(VirtualAddress::new(0xFFFF_8000_0000_2000));
    assert_eq!(pointer.limit, 55);
    assert_eq!(pointer.base.raw(), 0xFFFF_8000_0000_2000);
}

#[test]
fn kernel_table_for_a_tss_in_the_upper_half() {
    let (gdt, selectors) = kernel_gdt(VirtualAddress::new(0xFFFF_8000_0010_0000));
    assert_eq!(gdt.entry(0), null());
    assert_eq!(gdt.entry(1), SegmentDescriptor::kernel_code_segment_descriptor());
    assert_eq!(gdt.entry(2), SegmentDescriptor::kernel_data_segment_descriptor());
    assert_eq!(gdt.entry(3), SegmentDescriptor::user_code_segment_descriptor());
    assert_eq!(gdt.entry(4), SegmentDescriptor::user_data_segment_descriptor());
    let low = gdt.entry(5);
    let high = gdt.entry(6);
    assert_eq!(low.base_low, 0x0000);
    assert_eq!(low.base_middle, 0x10);
    assert_eq!(low.base_high, 0x00);
    assert_eq!(high.limit_low, 0x8000);
    assert_eq!(high.base_low, 0xFFFF);
    assert_eq!(selectors.kernel_code_segment.0, 0x08);
    assert_eq!(selectors.kernel_data_segment.0, 0x10);
    assert_eq!(selectors.user_code_segment.0, 0x1B);
    assert_eq!(selectors.user_data_segment.0, 0x23);
    assert_eq!(selectors.tss_system_segment.0, 0x2B);
}

#[test]
fn kernel_table_for_a_tss_in_the_last_two_gib() {
    let (gdt, _) = kernel_gdt(VirtualAddress::new(0xFFFF_FFFF_8010_0000));
    let low = gdt.entry(5);
    let high = gdt.entry(6);
    assert_eq!(low.base_low, 0x0000);
    assert_eq!(low.base_middle, 0x10);
    assert_eq!(low.base_high, 0x80);
    assert_eq!(high.limit_low, 0xFFFF);
    assert_eq!(high.base_low, 0xFFFF);
    assert_eq!(
        gdt.to_bits(),
        [
            0,
            0x00AF_9A00_0000_FFFF,
            0x00AF_9200_0000_FFFF,
            0x00AF_FA00_0000_FFFF,
            0x00AF_F200_0000_FFFF,
            0x8000_E910_0000_0067,
            0x0000_0000_FFFF_FFFF,
        ]
    );
}
