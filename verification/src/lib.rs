//! Descriptor tables and address types for bringing up an x86_64 kernel.

use crate::memory::address::VirtualAddress;
use crate::structs::gdt::{kernel_gdt, kernel_gdt_slots, GlobalDescriptorTable, Selectors};
use crate::structs::idt::{
    is_kernel_idt, kernel_binding, kernel_idt, GateDescriptor, HandlerAddresses,
    InterruptDescriptorTable,
};
use crate::structs::tss::{
    check_kernel_stacks, kernel_interrupt_stacks, kernel_privilege_stacks, kernel_stacks_fit,
    kernel_tss, lemma_kernel_stacks_are_dedicated, TaskStateSegment, TASK_STATE_SEGMENT_SIZE,
};
use vstd::prelude::*;

pub mod interrupts;
pub mod memory;
pub mod structs;
pub mod vga;

verus! {

/// Where the machine has put what the tables refer to: the row of eight
/// stacks, the task state segment, and the handlers.
#[derive(Debug, Clone, Copy)]
pub struct KernelLayout {
    pub stacks_base: u64,
    pub stack_size: u64,
    pub tss_pointer: VirtualAddress,
    pub handlers: HandlerAddresses,
}

/// The tables of the kernel, built once and not changed afterwards.
#[derive(Debug, Clone, Copy)]
pub struct KernelTables {
    pub tss: TaskStateSegment,
    pub gdt: GlobalDescriptorTable,
    pub selectors: Selectors,
    pub idt: InterruptDescriptorTable,
}

/// The tables are those of the kernel for `layout`.
pub open spec fn is_kernel_tables(tables: KernelTables, layout: KernelLayout) -> bool {
    &&& tables.tss.privilege_stacks() == kernel_privilege_stacks(
        layout.stacks_base,
        layout.stack_size,
    )
    &&& tables.tss.interrupt_stacks() == kernel_interrupt_stacks(
        layout.stacks_base,
        layout.stack_size,
    )
    &&& tables.tss.iomap_base == TASK_STATE_SEGMENT_SIZE - 1
    &&& tables.gdt@ == kernel_gdt_slots(layout.tss_pointer@)
    &&& tables.selectors.kernel_code_segment.0 == 0x08
    &&& tables.selectors.kernel_data_segment.0 == 0x10
    &&& tables.selectors.user_code_segment.0 == 0x1B
    &&& tables.selectors.user_data_segment.0 == 0x23
    &&& tables.selectors.tss_system_segment.0 == 0x2B
    &&& is_kernel_idt(tables.idt@, tables.selectors.kernel_code_segment, layout.handlers)
}

/// Builds the tables of the kernel in the order in which they depend on each
/// other: the task state segment with its stacks, the global descriptor table
/// with the descriptor of the task state segment, and the interrupt
/// descriptor table with the selector of the kernel's code segment.
pub fn kernel_init(layout: &KernelLayout) -> (r: KernelTables)
    requires
        kernel_stacks_fit(layout.stacks_base, layout.stack_size),
    ensures
        is_kernel_tables(r, *layout),
{
    let tss = kernel_tss(layout.stacks_base, layout.stack_size);
    let (gdt, selectors) = kernel_gdt(layout.tss_pointer);
    let idt = kernel_idt(selectors.kernel_code_segment, &layout.handlers);
    KernelTables { tss, gdt, selectors, idt }
}

/// Builds the tables of the kernel if the row of stacks can be used, and
/// nothing if it cannot.
pub fn try_kernel_init(layout: &KernelLayout) -> (r: Option<KernelTables>)
    ensures
        kernel_stacks_fit(layout.stacks_base, layout.stack_size) ==> (r matches Some(tables)
            && is_kernel_tables(tables, *layout)),
        !kernel_stacks_fit(layout.stacks_base, layout.stack_size) ==> r is None,
{
    if check_kernel_stacks(layout.stacks_base, layout.stack_size) {
        Some(kernel_init(layout))
    } else {
        None
    }
}

/// In the tables of the kernel every gate that asks for an interrupt stack
/// finds one: the slot of the task state segment that it names holds the top
/// of a stack, not zero.
pub proof fn lemma_kernel_gates_find_their_stacks(
    tables: KernelTables,
    layout: KernelLayout,
    vector: int,
)
    requires
        kernel_stacks_fit(layout.stacks_base, layout.stack_size),
        is_kernel_tables(tables, layout),
        kernel_binding(vector, layout.handlers) matches Some(binding) && binding.stack_slot != 0,
    ensures
        ({
            let stack_slot = kernel_binding(vector, layout.handlers).unwrap().stack_slot;
            &&& 1 <= stack_slot <= 7
            &&& tables.tss.interrupt_stacks()[stack_slot - 1] != 0
        }),
{
    lemma_kernel_stacks_are_dedicated(layout.stacks_base, layout.stack_size, 2, 7);
    lemma_kernel_stacks_are_dedicated(layout.stacks_base, layout.stack_size, 3, 7);
    lemma_kernel_stacks_are_dedicated(layout.stacks_base, layout.stack_size, 4, 7);
    lemma_kernel_stacks_are_dedicated(layout.stacks_base, layout.stack_size, 5, 7);
    lemma_kernel_stacks_are_dedicated(layout.stacks_base, layout.stack_size, 6, 7);
}

/// How far the processor has been told of the tables.
#[derive(Debug, Clone, Copy, PartialEq, Eq, Structural)]
pub enum InitStage {
    /// The tables are built, and none is loaded.
    TablesBuilt,
    /// The global descriptor table is loaded.
    GdtLoaded,
    /// Both tables are loaded: interrupts may be let in.
    IdtLoaded,
}

/// What to tell the processor next.
#[derive(Debug, Clone, Copy, PartialEq, Eq, Structural)]
pub enum InitAction {
    LoadGdt,
    LoadIdt,
}

impl InitStage {
    /// The one load that may follow this stage: the global descriptor table
    /// first, the interrupt descriptor table after it, then nothing.
    pub open spec fn next(self) -> Option<InitAction> {
        match self {
            InitStage::TablesBuilt => Some(InitAction::LoadGdt),
            InitStage::GdtLoaded => Some(InitAction::LoadIdt),
            InitStage::IdtLoaded => None,
        }
    }

    /// The stage after the load that may follow this one: the same stage when
    /// none may.
    pub open spec fn after(self) -> InitStage {
        match self {
            InitStage::TablesBuilt => InitStage::GdtLoaded,
            InitStage::GdtLoaded => InitStage::IdtLoaded,
            InitStage::IdtLoaded => InitStage::IdtLoaded,
        }
    }

    /// The load to perform at this stage, if any.
    pub fn next_action(self) -> (r: Option<InitAction>)
        ensures
            r == self.next(),
    {
        match self {
            InitStage::TablesBuilt => Some(InitAction::LoadGdt),
            InitStage::GdtLoaded => Some(InitAction::LoadIdt),
            InitStage::IdtLoaded => None,
        }
    }

    /// The stage reached once `action` has been performed.
    pub fn completed(self, action: InitAction) -> (r: InitStage)
        requires
            self.next() == Some(action),
        ensures
            r == self.after(),
    {
        match self {
            InitStage::TablesBuilt => InitStage::GdtLoaded,
            InitStage::GdtLoaded => InitStage::IdtLoaded,
            InitStage::IdtLoaded => InitStage::IdtLoaded,
        }
    }

    /// Whether interrupts may be let in: only once both tables are loaded.
    pub fn interrupts_may_be_enabled(self) -> (r: bool)
        ensures
            r == (self == InitStage::IdtLoaded),
    {
        match self {
            InitStage::IdtLoaded => true,
            _ => false,
        }
    }
}

/// From built tables there is one way on: load the global descriptor table,
/// then the interrupt descriptor table, and then nothing is left to load.
pub proof fn lemma_init_order()
    ensures
        InitStage::TablesBuilt.next() == Some(InitAction::LoadGdt),
        InitStage::TablesBuilt.after().next() == Some(InitAction::LoadIdt),
        InitStage::TablesBuilt.after().after() == InitStage::IdtLoaded,
        InitStage::IdtLoaded.next() is None,
{
}

/// An I/O port of the processor.
#[derive(Debug, Clone, Copy, PartialEq, Eq, Structural)]
pub struct Port(pub u16);

/// The port on which the emulator takes a request to end.
pub const EXIT_PORT: u16 = 0xf4;

/// How a run ended.
#[derive(Debug, Clone, Copy, PartialEq, Eq, Structural)]
pub enum ExitCode {
    Success,
    Failure,
}

impl ExitCode {
    /// The number that stands for the exit code on the port.
    pub open spec fn code(self) -> u32 {
        match self {
            ExitCode::Success => 0x10,
            ExitCode::Failure => 0x11,
        }
    }

    /// The number that stands for the exit code on the port: `0x10` for
    /// success, `0x11` for failure.
    pub fn value(self) -> (r: u32)
        ensures
            r == self.code(),
    {
        match self {
            ExitCode::Success => 0x10,
            ExitCode::Failure => 0x11,
        }
    }
}

/// A value to write to a port.
#[derive(Debug, Clone, Copy, PartialEq, Eq, Structural)]
pub struct PortWrite {
    pub port: Port,
    pub value: u32,
}

/// The write that ends the run with `exit_code`: the code's number, to the
/// exit port.
pub fn exit(exit_code: ExitCode) -> (r: PortWrite)
    ensures
        r.port.0 == EXIT_PORT,
        r.value == exit_code.code(),
{
    PortWrite { port: Port(EXIT_PORT), value: exit_code.value() }
}

/// Something that can be run as a test.
pub trait Testable {
    fn run(&self);
}

/// Runs every test in order and returns the write that ends the run with
/// success.
pub fn test_runner(tests: &[&dyn Testable]) -> (r: PortWrite)
    ensures
        r.port.0 == EXIT_PORT,
        r.value == ExitCode::Success.code(),
{
    let mut i: usize = 0;
    while i < tests.len()
        invariant
            i <= tests.len(),
        decreases tests.len() - i,
    {
        tests[i].run();
        i += 1;
    }
    exit(ExitCode::Success)
}

} // verus!
