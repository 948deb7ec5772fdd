use flap_os::memory::address::VirtualAddress;
use flap_os::memory::paging::consts::PageSize;
use flap_os::memory::paging::page::Page;
use flap_os::memory::paging::page_table::{
    root_table_address, PageTableEntry, PAGE_TABLE_ENTRIES, ROOT_TABLE_ADDRESS_MASK,
};

#[test]
fn page_sizes_are_4_kib_and_2_mib() {
    assert_eq!(PageSize::NORMAL.size(), 1 << 12);
    assert_eq!(PageSize::LARGE.size(), 1 << 21);
}

#[test]
fn page_starts_at_the_address_rounded_down() {
    let page = Page::from_address_aligned(VirtualAddress::new(0x0040_1234), PageSize::NORMAL);
    assert_eq!(page.offset().raw(), 0x0040_1000);
    assert_eq!(page.size(), PageSize::NORMAL);
    let large = Page::from_address_aligned(VirtualAddress::new(0x0040_1234), PageSize::LARGE);
    assert_eq!(large.offset().raw(), 0x0040_0000);
    assert_eq!(large.size(), PageSize::LARGE);
}

#[test]
fn page_of_an_aligned_address_starts_there() {
    let address = VirtualAddress::new(0xFFFF_8000_0020_0000);
    let page = Page::from_address_aligned(address, PageSize::LARGE);
    assert_eq!(page.offset().raw(), 0xFFFF_8000_0020_0000);
}

#[test]
fn page_in_the_upper_half() {
    let address = VirtualAddress::new(0xFFFF_FFFF_FFFF_FFFF);
    let page = Page::from_address_aligned(address, PageSize::LARGE);
    assert_eq!(page.offset().raw(), 0xFFFF_FFFF_FFE0_0000);
}

#[test]
fn root_table_address_drops_the_flags() {
    assert_eq!(root_table_address(0x0000_0000_0010_1018).raw(), 0x0000_0000_0010_1000);
    assert_eq!(root_table_address(0xFFFF_FFFF_FFFF_FFFF).raw(), 0x000F_FFFF_FFFF_F000);
    assert_eq!(root_table_address(0xFFF).raw(), 0);
    assert_eq!(ROOT_TABLE_ADDRESS_MASK, 0x000F_FFFF_FFFF_F000);
}

#[test]
fn new_page_table_entry_is_empty() {
    assert_eq!(PageTableEntry::new().bits(), 0);
    assert_eq!(PAGE_TABLE_ENTRIES, 512);
}
