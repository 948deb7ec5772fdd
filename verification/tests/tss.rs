use flap_os::structs::tss::{
    check_kernel_stacks, kernel_tss, StackTableType, TaskStateSegment,
    DOUBLE_FAULT_STACK_TABLE_INDEX, PRIVILEGE_LEVEL_THREE_STACK_TABLE_INDEX, STACK_SIZE,
    TASK_STATE_SEGMENT_SIZE,
};

#[test]
fn new_tss_is_zero_but_for_the_bitmap_offset() {
    let tss = TaskStateSegment::new();
    for pointer in tss.privilege_stack_table {
        assert_eq!(pointer.raw(), 0);
    }
    for pointer in tss.interrupt_stack_table {
        assert_eq!(pointer.raw(), 0);
    }
    assert_eq!(tss.iomap_base, 103);
    assert_eq!(TASK_STATE_SEGMENT_SIZE, 104);
}

#[test]
fn init_stack_table_stores_the_top_of_the_stack() {
    let mut tss = TaskStateSegment::new();
    tss.init_stack_table(
        DOUBLE_FAULT_STACK_TABLE_INDEX,
        StackTableType::Interrupt,
        0xFFFF_8000_0020_0000,
        0x4000,
    );
    assert_eq!(tss.interrupt_stack_table[2].raw(), 0xFFFF_8000_0020_4000);
    for index in [0usize, 1, 3, 4, 5, 6] {
        assert_eq!(tss.interrupt_stack_table[index].raw(), 0);
    }
    for pointer in tss.privilege_stack_table {
        assert_eq!(pointer.raw(), 0);
    }
    assert_eq!(tss.iomap_base, 103);
}

#[test]
fn init_stack_table_fills_a_privilege_slot() {
    let mut tss = TaskStateSegment::new();
    tss.init_stack_table(
        PRIVILEGE_LEVEL_THREE_STACK_TABLE_INDEX,
        StackTableType::Privilege,
        0x10_0000,
        STACK_SIZE as u64,
    );
    assert_eq!(tss.privilege_stack_table[2].raw(), 0x10_1000);
    assert_eq!(tss.privilege_stack_table[0].raw(), 0);
    assert_eq!(tss.privilege_stack_table[1].raw(), 0);
    for pointer in tss.interrupt_stack_table {
        assert_eq!(pointer.raw(), 0);
    }
}

#[test]
fn kernel_tss_gives_every_slot_in_use_its_own_stack() {
    let tss = kernel_tss(0x10_0000, 0x1000);
    assert_eq!(tss.privilege_stack_table[0].raw(), 0x10_1000);
    assert_eq!(tss.privilege_stack_table[1].raw(), 0);
    assert_eq!(tss.privilege_stack_table[2].raw(), 0x10_2000);
    let expected: [u64; 7] = [0x10_3000, 0x10_4000, 0x10_5000, 0x10_6000, 0x10_7000, 0x10_8000, 0];
    for index in 0..7 {
        assert_eq!(tss.interrupt_stack_table[index].raw(), expected[index]);
    }
    assert_eq!(tss.iomap_base, 103);
}

#[test]
fn kernel_tss_stacks_do_not_overlap() {
    let tss = kernel_tss(0xFFFF_8000_0000_0000, 0x4000);
    let mut tops: Vec<u64> = vec![
        tss.privilege_stack_table[0].raw(),
        tss.privilege_stack_table[2].raw(),
    ];
    for index in 0..6 {
        tops.push(tss.interrupt_stack_table[index].raw());
    }
    for m in 0..tops.len() {
        assert!(tops[m] != 0);
        for n in (m + 1)..tops.len() {
            assert!(tops[n] - tops[m] >= 0x4000);
        }
    }
}

#[test]
fn kernel_stacks_are_checked() {
    assert!(check_kernel_stacks(0x10_0000, 0x1000));
    assert!(check_kernel_stacks(0xFFFF_8000_0000_0000, 0x4000));
    assert!(check_kernel_stacks(0, 0x1000));
    // a stack below 4 KiB
    assert!(!check_kernel_stacks(0x10_0000, 0xFFF));
    // a base that is not canonical
    assert!(!check_kernel_stacks(0x0001_0000_0000_0000, 0x1000));
    // a row that leaves the lower half
    assert!(!check_kernel_stacks(0x0000_FFFF_FFFF_F000, 0x1000));
    assert!(check_kernel_stacks(0x0000_FFFF_FFFF_7FFF, 0x1000));
    assert!(!check_kernel_stacks(0x0000_FFFF_FFFF_8000, 0x1000));
    // a row that runs past the last address
    assert!(!check_kernel_stacks(0xFFFF_FFFF_FFFF_F000, 0x1000));
    assert!(check_kernel_stacks(0xFFFF_FFFF_FFFF_7FFF, 0x1000));
    assert!(!check_kernel_stacks(0xFFFF_FFFF_FFFF_8000, 0x1000));
    // a size whose eightfold does not fit in 64 bits
    assert!(!check_kernel_stacks(0, 0x2000_0000_0000_0000));
    assert!(!check_kernel_stacks(0, u64::MAX));
}

#[test]
fn tss_image_has_the_hardware_layout() {
    let tss = kernel_tss(0xFFFF_8000_0010_0000, 0x1000);
    let words = tss.to_bits();
    assert_eq!(words.len(), 26);
    assert_eq!(words[0], 0);
    // privilege stack 0
    assert_eq!(words[1], 0x0010_1000);
    assert_eq!(words[2], 0xFFFF_8000);
    // privilege stack 1 is not in use
    assert_eq!(words[3], 0);
    assert_eq!(words[4], 0);
    // privilege stack 2
    assert_eq!(words[5], 0x0010_2000);
    assert_eq!(words[6], 0xFFFF_8000);
    assert_eq!(words[7], 0);
    assert_eq!(words[8], 0);
    // interrupt stacks 0 to 5
    for index in 0..6usize {
        assert_eq!(words[9 + 2 * index], 0x0010_3000 + 0x1000 * index as u32);
        assert_eq!(words[10 + 2 * index], 0xFFFF_8000);
    }
    // interrupt stack 6 is not in use
    assert_eq!(words[21], 0);
    assert_eq!(words[22], 0);
    assert_eq!(words[23], 0);
    assert_eq!(words[24], 0);
    assert_eq!(words[25], 103 << 16);
}

#[test]
fn tss_image_of_a_new_tss() {
    let words = TaskStateSegment::new().to_bits();
    for word in 0..25 {
        assert_eq!(words[word], 0);
    }
    assert_eq!(words[25], 0x0067_0000);
}
