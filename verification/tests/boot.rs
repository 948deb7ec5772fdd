use std::cell::Cell;

use flap_os::memory::address::VirtualAddress;
use flap_os::structs::idt::HandlerAddresses;
use flap_os::{
    exit, kernel_init, test_runner, try_kernel_init, ExitCode, InitAction, InitStage,
    KernelLayout, Testable, EXIT_PORT,
};

fn layout(stacks_base: u64, stack_size: u64) -> KernelLayout {
    KernelLayout {
        stacks_base,
        stack_size,
        tss_pointer: VirtualAddress::new(0xFFFF_FFFF_8010_0000),
        handlers: HandlerAddresses {
            debug_exception: VirtualAddress::new(0xFFFF_FFFF_8000_1000),
            nmi: VirtualAddress::new(0xFFFF_FFFF_8000_2000),
            breakpoint: VirtualAddress::new(0xFFFF_FFFF_8000_3000),
            segment_not_present: VirtualAddress::new(0xFFFF_FFFF_8000_4000),
            double_fault: VirtualAddress::new(0xFFFF_FFFF_8000_5000),
            stack_segment_fault: VirtualAddress::new(0xFFFF_FFFF_8000_6000),
            general_protection_fault: VirtualAddress::new(0xFFFF_FFFF_8000_7000),
        },
    }
}

#[test]
fn kernel_init_builds_the_three_tables() {
    let tables = kernel_init(&layout(0xFFFF_FFFF_8020_0000, 0x4000));
    assert_eq!(tables.tss.privilege_stack_table[0].raw(), 0xFFFF_FFFF_8020_4000);
    assert_eq!(tables.tss.interrupt_stack_table[2].raw(), 0xFFFF_FFFF_8021_4000);
    assert_eq!(tables.gdt.entry(5).base_high, 0x80);
    assert_eq!(tables.gdt.entry(5).base_middle, 0x10);
    assert_eq!(tables.gdt.entry(6).to_bits(), 0xFFFF_FFFF);
    assert_eq!(tables.selectors.kernel_code_segment.0, 0x08);
    assert_eq!(tables.selectors.tss_system_segment.0, 0x2B);
    let double_fault = tables.idt.entry(8);
    assert!(double_fault.is_present());
    assert_eq!(double_fault.segment, tables.selectors.kernel_code_segment);
    assert_eq!(double_fault.gate_options.bits(), 0x8E03);
    assert_eq!(double_fault.offset_low, 0x5000);
    assert_eq!(double_fault.offset_middle, 0x8000);
    assert_eq!(double_fault.offset_high, 0xFFFF_FFFF);
}

#[test]
fn every_stack_that_a_gate_names_is_there() {
    let tables = kernel_init(&layout(0x10_0000, 0x1000));
    for vector in 0..256usize {
        let gate = tables.idt.entry(vector);
        let slot = (gate.gate_options.bits() & 7) as usize;
        if gate.is_present() && slot != 0 {
            assert!(tables.tss.interrupt_stack_table[slot - 1].raw() != 0);
        }
    }
}

#[test]
fn try_kernel_init_refuses_stacks_that_do_not_fit() {
    assert!(try_kernel_init(&layout(0x10_0000, 0x800)).is_none());
    assert!(try_kernel_init(&layout(0x0000_FFFF_FFFF_F000, 0x1000)).is_none());
    assert!(try_kernel_init(&layout(0x4000_0000_0000_0000, 0x1000)).is_none());
    let tables = try_kernel_init(&layout(0x10_0000, 0x1000)).unwrap();
    assert_eq!(tables.tss.privilege_stack_table[2].raw(), 0x10_2000);
    assert_eq!(tables.selectors.user_data_segment.0, 0x23);
}

#[test]
fn tables_are_loaded_in_order() {
    let mut stage = InitStage::TablesBuilt;
    assert!(!stage.interrupts_may_be_enabled());
    assert_eq!(stage.next_action(), Some(InitAction::LoadGdt));
    stage = stage.completed(InitAction::LoadGdt);
    assert_eq!(stage, InitStage::GdtLoaded);
    assert!(!stage.interrupts_may_be_enabled());
    assert_eq!(stage.next_action(), Some(InitAction::LoadIdt));
    stage = stage.completed(InitAction::LoadIdt);
    assert_eq!(stage, InitStage::IdtLoaded);
    assert!(stage.interrupts_may_be_enabled());
    assert_eq!(stage.next_action(), None);
}

#[test]
fn exit_writes_the_code_to_the_exit_port() {
    let success = exit(ExitCode::Success);
    assert_eq!(success.port.0, 0xf4);
    assert_eq!(success.value, 0x10);
    let failure = exit(ExitCode::Failure);
    assert_eq!(failure.port.0, EXIT_PORT);
    assert_eq!(failure.value, 0x11);
    assert_eq!(ExitCode::Success.value(), 0x10);
    assert_eq!(ExitCode::Failure.value(), 0x11);
}

struct Counted<'a> {
    runs: &'a Cell<u32>,
    order: &'a Cell<u32>,
    place: u32,
}

impl Testable for Counted<'_> {
    fn run(&self) {
        assert_eq!(self.order.get(), self.place);
        self.order.set(self.place + 1);
        self.runs.set(self.runs.get() + 1);
    }
}

#[test]
fn test_runner_runs_every_test_once_in_order() {
    let runs = Cell::new(0);
    let order = Cell::new(0);
    let first = Counted { runs: &runs, order: &order, place: 0 };
    let second = Counted { runs: &runs, order: &order, place: 1 };
    let third = Counted { runs: &runs, order: &order, place: 2 };
    let tests: [&dyn Testable; 3] = [&first, &second, &third];
    let write = test_runner(&tests);
    assert_eq!(runs.get(), 3);
    assert_eq!(write.port.0, 0xf4);
    assert_eq!(write.value, 0x10);
}

#[test]
fn test_runner_without_tests_ends_with_success() {
    let write = test_runner(&[]);
    assert_eq!(write, exit(ExitCode::Success));
}
