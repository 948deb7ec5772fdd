//! The task state segment: the stack pointers that the processor loads when it
//! changes privilege level or enters an interrupt gate that asks for a stack.

use crate::memory::address::{is_canonical, VirtualAddress};
use vstd::prelude::*;

verus! {

/// The size in bytes of the task state segment in memory.
pub const TASK_STATE_SEGMENT_SIZE: usize = 104;

/// The least size in bytes of a stack that a slot may point into: 4 KiB.
pub const STACK_SIZE: usize = 0x1000;

/// The number of privilege-level stack pointers.
pub const PRIVILEGE_STACKS: usize = 3;

/// The number of interrupt stack pointers.
pub const INTERRUPT_STACKS: usize = 7;

pub const PRIVILEGE_LEVEL_ZERO_STACK_TABLE_INDEX: usize = 0x00;

pub const PRIVILEGE_LEVEL_THREE_STACK_TABLE_INDEX: usize = 0x02;

pub const DEBUG_STACK_TABLE_INDEX: usize = 0x00;

pub const NMI_STACK_TABLE_INDEX: usize = 0x01;

pub const DOUBLE_FAULT_STACK_TABLE_INDEX: usize = 0x02;

pub const STACK_SEGMENT_FAULT_STACK_TABLE_INDEX: usize = 0x03;

pub const GENERAL_PROTECTION_STACK_TABLE_INDEX: usize = 0x04;

pub const MACHINE_CHECK_STACK_TABLE_INDEX: usize = 0x05;

/// Which of the two tables of stack pointers a slot belongs to.
#[derive(Debug, Clone, Copy, PartialEq, Eq, Structural)]
pub enum StackTableType {
    Privilege,
    Interrupt,
}

impl StackTableType {
    /// The number of slots in the table of this type.
    pub open spec fn slots(self) -> int {
        match self {
            StackTableType::Privilege => 3,
            StackTableType::Interrupt => 7,
        }
    }
}

/// The task state segment. The reserved fields of the hardware layout are
/// always zero and are not held here.
#[derive(Debug, Clone, Copy)]
pub struct TaskStateSegment {
    pub privilege_stack_table: [VirtualAddress; 3],
    pub interrupt_stack_table: [VirtualAddress; 7],
    pub iomap_base: u16,
}

/// The raw values of a table of stack pointers.
pub open spec fn stack_pointers(table: Seq<VirtualAddress>) -> Seq<u64> {
    table.map_values(|a: VirtualAddress| a@)
}

/// The number of 32-bit words in the task state segment in memory.
pub const TASK_STATE_SEGMENT_WORDS: usize = 26;

/// Word `word` of the task state segment as the processor reads it, in
/// little-endian words of 32 bits. Word 0 is reserved. Words 1 to 6 hold the
/// three privilege-level stack pointers, each the low half first. Words 7 and
/// 8 are reserved. Words 9 to 22 hold the seven interrupt stack pointers in
/// the same way. Words 23 and 24 are reserved. Word 25 holds a reserved low
/// half and the offset of the I/O permission bitmap in its high half. What is
/// reserved is zero.
pub open spec fn tss_word(
    privilege_stacks: Seq<u64>,
    interrupt_stacks: Seq<u64>,
    iomap_base: u16,
    word: int,
) -> int {
    if 1 <= word <= 6 {
        if word % 2 == 1 {
            (privilege_stacks[(word - 1) / 2] % 0x1_0000_0000) as int
        } else {
            (privilege_stacks[(word - 1) / 2] / 0x1_0000_0000) as int
        }
    } else if 9 <= word <= 22 {
        if word % 2 == 1 {
            (interrupt_stacks[(word - 9) / 2] % 0x1_0000_0000) as int
        } else {
            (interrupt_stacks[(word - 9) / 2] / 0x1_0000_0000) as int
        }
    } else if word == 25 {
        iomap_base * 0x1_0000
    } else {
        0
    }
}

proof fn lemma_halves(pointer: u64, iomap_base: u16)
    by (bit_vector)
    ensures
        pointer & 0xFFFF_FFFF == pointer % 0x1_0000_0000,
        pointer >> 32 == pointer / 0x1_0000_0000,
        pointer / 0x1_0000_0000 <= 0xFFFF_FFFF,
        (iomap_base as u32) << 16 == iomap_base * 0x1_0000,
{
}

impl TaskStateSegment {
    /// The raw privilege-level stack pointers, three of them.
    pub open spec fn privilege_stacks(&self) -> Seq<u64> {
        stack_pointers(self.privilege_stack_table@)
    }

    /// The raw interrupt stack pointers, seven of them.
    pub open spec fn interrupt_stacks(&self) -> Seq<u64> {
        stack_pointers(self.interrupt_stack_table@)
    }

    /// A task state segment with every stack pointer zero and no I/O
    /// permission bitmap: the bitmap's offset is the segment's size less one.
    pub fn new() -> (r: TaskStateSegment)
        ensures
            r.privilege_stacks() == seq![0u64, 0u64, 0u64],
            r.interrupt_stacks() == seq![0u64, 0u64, 0u64, 0u64, 0u64, 0u64, 0u64],
            r.iomap_base == TASK_STATE_SEGMENT_SIZE - 1,
    {
        TaskStateSegment {
            privilege_stack_table: [VirtualAddress::zero();3],
            interrupt_stack_table: [VirtualAddress::zero();7],
            iomap_base: (TASK_STATE_SEGMENT_SIZE - 1) as u16,
        }
    }

    /// The segment as the processor reads it: 26 little-endian words of 32
    /// bits.
    pub fn to_bits(&self) -> (r: [u32; 26])
        ensures
            forall|word: int|
                0 <= word < TASK_STATE_SEGMENT_WORDS ==> #[trigger] r@[word] == tss_word(
                    self.privilege_stacks(),
                    self.interrupt_stacks(),
                    self.iomap_base,
                    word,
                ),
    {
        let mut words: [u32; 26] = [0;26];
        let mut i: usize = 0;
        while i < PRIVILEGE_STACKS
            invariant
                i <= PRIVILEGE_STACKS,
                forall|word: int|
                    0 <= word < TASK_STATE_SEGMENT_WORDS ==> #[trigger] words@[word] == (if word < 1
                        + 2 * i {
                        tss_word(
                            self.privilege_stacks(),
                            self.interrupt_stacks(),
                            self.iomap_base,
                            word,
                        )
                    } else {
                        0
                    }),
            decreases PRIVILEGE_STACKS - i,
        {
            let pointer: u64 = self.privilege_stack_table[i].raw();
            proof {
                lemma_halves(pointer, 0);
            }
            words[1 + 2 * i] = (pointer & 0xFFFF_FFFF) as u32;
            words[2 + 2 * i] = (pointer >> 32) as u32;
            i += 1;
        }
        let mut j: usize = 0;
        while j < INTERRUPT_STACKS
            invariant
                j <= INTERRUPT_STACKS,
                forall|word: int|
                    0 <= word < TASK_STATE_SEGMENT_WORDS ==> #[trigger] words@[word] == (if word < 9
                        + 2 * j {
                        tss_word(
                            self.privilege_stacks(),
                            self.interrupt_stacks(),
                            self.iomap_base,
                            word,
                        )
                    } else {
                        0
                    }),
            decreases INTERRUPT_STACKS - j,
        {
            let pointer: u64 = self.interrupt_stack_table[j].raw();
            proof {
                lemma_halves(pointer, 0);
            }
            words[9 + 2 * j] = (pointer & 0xFFFF_FFFF) as u32;
            words[10 + 2 * j] = (pointer >> 32) as u32;
            j += 1;
        }
        proof {
            lemma_halves(0, self.iomap_base);
        }
        words[25] = (self.iomap_base as u32) << 16;
        words
    }

    /// Points one slot at the top of the stack that starts at `stack_base` and
    /// is `stack_size` bytes long, at least 4 KiB. Stacks grow downwards, so
    /// the pointer is the end of the region, not its start.
    pub fn init_stack_table(
        &mut self,
        stack_table_index: usize,
        stack_table_type: StackTableType,
        stack_base: u64,
        stack_size: u64,
    )
        requires
            stack_table_index < stack_table_type.slots(),
            stack_size >= STACK_SIZE,
            stack_base + stack_size <= u64::MAX,
            is_canonical((stack_base + stack_size) as u64),
        ensures
            final(self).iomap_base == old(self).iomap_base,
            stack_table_type == StackTableType::Privilege ==> final(self).privilege_stacks() == old(
                self,
            ).privilege_stacks().update(
                stack_table_index as int,
                (stack_base + stack_size) as u64,
            ) && final(self).interrupt_stacks() == old(self).interrupt_stacks(),
            stack_table_type == StackTableType::Interrupt ==> final(self).interrupt_stacks() == old(
                self,
            ).interrupt_stacks().update(
                stack_table_index as int,
                (stack_base + stack_size) as u64,
            ) && final(self).privilege_stacks() == old(self).privilege_stacks(),
    {
        let stack_ptr: u64 = stack_base + stack_size;
        let canonical_stack_ptr = VirtualAddress::new(stack_ptr);
        match stack_table_type {
            StackTableType::Privilege => {
                self.privilege_stack_table[stack_table_index] = canonical_stack_ptr;
            },
            StackTableType::Interrupt => {
                self.interrupt_stack_table[stack_table_index] = canonical_stack_ptr;
            },
        }
    }
}

/// The number of stacks that the kernel's task state segment points into:
/// two for privilege levels and six for interrupts.
pub const KERNEL_STACKS: usize = 8;

/// The top of stack `n` in a row of stacks of `stack_size` bytes each that
/// starts at `stacks_base`. Stack `n` takes the bytes from `stacks_base + n *
/// stack_size` up to its top.
pub open spec fn kernel_stack_top(stacks_base: u64, stack_size: u64, n: int) -> int {
    stacks_base + (n + 1) * stack_size
}

/// A row of eight stacks can be used: each stack has at least 4 KiB, and the
/// row lies within one half of the canonical addresses.
pub open spec fn kernel_stacks_fit(stacks_base: u64, stack_size: u64) -> bool {
    &&& stack_size >= STACK_SIZE
    &&& is_canonical(stacks_base)
    &&& stacks_base + KERNEL_STACKS * stack_size <= u64::MAX
    &&& stacks_base <= 0x0000_FFFF_FFFF_FFFF ==> stacks_base + KERNEL_STACKS * stack_size
        <= 0x0000_FFFF_FFFF_FFFF
}

/// The stacks of a row that can be used are dedicated: no two of them share
/// a byte, so their tops differ, and no top is zero.
pub proof fn lemma_kernel_stacks_are_dedicated(stacks_base: u64, stack_size: u64, m: int, n: int)
    by (nonlinear_arith)
    requires
        kernel_stacks_fit(stacks_base, stack_size),
        0 <= m < n < KERNEL_STACKS,
    ensures
        kernel_stack_top(stacks_base, stack_size, m) <= kernel_stack_top(stacks_base, stack_size, n)
            - stack_size,
        0 < kernel_stack_top(stacks_base, stack_size, m) < kernel_stack_top(
            stacks_base,
            stack_size,
            n,
        ) <= u64::MAX,
        is_canonical(kernel_stack_top(stacks_base, stack_size, m) as u64),
        is_canonical(kernel_stack_top(stacks_base, stack_size, n) as u64),
{
}

/// Whether a row of eight stacks of `stack_size` bytes each that starts at
/// `stacks_base` can be used.
pub fn check_kernel_stacks(stacks_base: u64, stack_size: u64) -> (r: bool)
    ensures
        r == kernel_stacks_fit(stacks_base, stack_size),
{
    if stack_size < STACK_SIZE as u64 || stack_size > u64::MAX / 8 {
        return false;
    }
    let length: u64 = stack_size * 8;
    if stacks_base <= 0x0000_FFFF_FFFF_FFFF {
        length <= 0x0000_FFFF_FFFF_FFFF - stacks_base
    } else {
        stacks_base >= 0xFFFF_0000_0000_0000 && length <= u64::MAX - stacks_base
    }
}

/// The privilege-level stack pointers of the kernel's task state segment:
/// slots 0 and 2 point at the tops of stacks 0 and 1, slot 1 is not in use.
pub open spec fn kernel_privilege_stacks(stacks_base: u64, stack_size: u64) -> Seq<u64> {
    seq![
        kernel_stack_top(stacks_base, stack_size, 0) as u64,
        0u64,
        kernel_stack_top(stacks_base, stack_size, 1) as u64,
    ]
}

/// The interrupt stack pointers of the kernel's task state segment: slots 0
/// to 5 point at the tops of stacks 2 to 7, slot 6 is not in use.
pub open spec fn kernel_interrupt_stacks(stacks_base: u64, stack_size: u64) -> Seq<u64> {
    seq![
        kernel_stack_top(stacks_base, stack_size, 2) as u64,
        kernel_stack_top(stacks_base, stack_size, 3) as u64,
        kernel_stack_top(stacks_base, stack_size, 4) as u64,
        kernel_stack_top(stacks_base, stack_size, 5) as u64,
        kernel_stack_top(stacks_base, stack_size, 6) as u64,
        kernel_stack_top(stacks_base, stack_size, 7) as u64,
        0u64,
    ]
}

/// Builds the kernel's task state segment over a row of eight stacks of
/// `stack_size` bytes each that starts at `stacks_base`. Every slot in use
/// gets a stack of its own.
pub fn kernel_tss(stacks_base: u64, stack_size: u64) -> (r: TaskStateSegment)
    requires
        kernel_stacks_fit(stacks_base, stack_size),
    ensures
        r.privilege_stacks() == kernel_privilege_stacks(stacks_base, stack_size),
        r.interrupt_stacks() == kernel_interrupt_stacks(stacks_base, stack_size),
        r.iomap_base == TASK_STATE_SEGMENT_SIZE - 1,
{
    proof {
        lemma_kernel_stacks_are_dedicated(stacks_base, stack_size, 0, 7);
        lemma_kernel_stacks_are_dedicated(stacks_base, stack_size, 1, 7);
        lemma_kernel_stacks_are_dedicated(stacks_base, stack_size, 2, 7);
        lemma_kernel_stacks_are_dedicated(stacks_base, stack_size, 3, 7);
        lemma_kernel_stacks_are_dedicated(stacks_base, stack_size, 4, 7);
        lemma_kernel_stacks_are_dedicated(stacks_base, stack_size, 5, 7);
        lemma_kernel_stacks_are_dedicated(stacks_base, stack_size, 6, 7);
    }
    let mut tss = TaskStateSegment::new();
    // Privilege Stacks
    tss.init_stack_table(
        PRIVILEGE_LEVEL_ZERO_STACK_TABLE_INDEX,
        StackTableType::Privilege,
        stacks_base,
        stack_size,
    );
    tss.init_stack_table(
        PRIVILEGE_LEVEL_THREE_STACK_TABLE_INDEX,
        StackTableType::Privilege,
        stacks_base + stack_size,
        stack_size,
    );
    // Interrupt Stacks
    tss.init_stack_table(
        DEBUG_STACK_TABLE_INDEX,
        StackTableType::Interrupt,
        stacks_base + 2 * stack_size,
        stack_size,
    );
    tss.init_stack_table(
        NMI_STACK_TABLE_INDEX,
        StackTableType::Interrupt,
        stacks_base + 3 * stack_size,
        stack_size,
    );
    tss.init_stack_table(
        DOUBLE_FAULT_STACK_TABLE_INDEX,
        StackTableType::Interrupt,
        stacks_base + 4 * stack_size,
        stack_size,
    );
    tss.init_stack_table(
        STACK_SEGMENT_FAULT_STACK_TABLE_INDEX,
        StackTableType::Interrupt,
        stacks_base + 5 * stack_size,
        stack_size,
    );
    tss.init_stack_table(
        GENERAL_PROTECTION_STACK_TABLE_INDEX,
        StackTableType::Interrupt,
        stacks_base + 6 * stack_size,
        stack_size,
    );
    tss.init_stack_table(
        MACHINE_CHECK_STACK_TABLE_INDEX,
        StackTableType::Interrupt,
        stacks_base + 7 * stack_size,
        stack_size,
    );
    tss
}

} // verus!
