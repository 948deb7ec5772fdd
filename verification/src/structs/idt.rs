//! Gate options, gate descriptors and the interrupt descriptor table.

use crate::interrupts::consts::{
    is_reserved_vector, BREAKPOINT, DEBUG_EXCEPTION, DOUBLE_FAULT, GENERAL_PROTECTION,
    NMI_INTERRUPT, SEGMENT_NOT_PRESENT, STACK_SEGMENT_FAULT,
};
use crate::memory::address::VirtualAddress;
use crate::structs::gdt::SegmentSelector;
use crate::structs::tss::{
    DEBUG_STACK_TABLE_INDEX, DOUBLE_FAULT_STACK_TABLE_INDEX, GENERAL_PROTECTION_STACK_TABLE_INDEX,
    INTERRUPT_STACKS, NMI_STACK_TABLE_INDEX, STACK_SEGMENT_FAULT_STACK_TABLE_INDEX,
};
use vstd::prelude::*;

verus! {

/// The number of vectors, and of gates in the interrupt descriptor table.
pub const IDT_ENTRIES: usize = 256;

/// The present bit of gate options: bit 15.
pub open spec fn options_present(bits: u16) -> bool {
    bits >= 0x8000
}

/// The descriptor privilege level of gate options: bits 13 and 14.
pub open spec fn options_privilege_level(bits: u16) -> u16 {
    bits / 0x2000 % 4
}

/// Whether interrupts stay enabled when a gate is entered: bit 8.
pub open spec fn options_interrupts_enabled(bits: u16) -> bool {
    bits / 0x0100 % 2 == 1
}

/// The interrupt stack of gate options: bits 0 to 2. Zero stands for the
/// stack in use when the interrupt arrives, `n` above zero for entry `n - 1`
/// of the interrupt stack table.
pub open spec fn options_stack_slot(bits: u16) -> u16 {
    bits % 8
}

/// The bits that no writer touches have the values of an interrupt gate: bits
/// 9 to 11 are one, bit 12 and bits 3 to 7 are zero.
pub open spec fn options_valid(bits: u16) -> bool {
    bits / 0x0200 % 16 == 7 && bits / 8 % 32 == 0
}

/// The option bits that hold the four given fields.
pub open spec fn options_bits(
    present: bool,
    privilege_level: u16,
    interrupts_enabled: bool,
    stack_slot: u16,
) -> int {
    0x0E00 + (if present {
        0x8000int
    } else {
        0
    }) + privilege_level * 0x2000 + (if interrupts_enabled {
        0x0100int
    } else {
        0
    }) + stack_slot
}

/// Valid gate options are made of their four fields and nothing else.
pub proof fn lemma_options_layout(bits: u16)
    by (bit_vector)
    requires
        options_valid(bits),
    ensures
        bits == options_bits(
            options_present(bits),
            options_privilege_level(bits),
            options_interrupts_enabled(bits),
            options_stack_slot(bits),
        ),
        options_privilege_level(bits) <= 3,
        options_stack_slot(bits) <= 7,
{
}

/// The options made of four fields are valid and hold those fields.
pub proof fn lemma_options_fields(
    bits: u16,
    present: bool,
    privilege_level: u16,
    interrupts_enabled: bool,
    stack_slot: u16,
)
    by (bit_vector)
    requires
        privilege_level <= 3,
        stack_slot <= 7,
        bits == options_bits(present, privilege_level, interrupts_enabled, stack_slot),
    ensures
        options_valid(bits),
        options_present(bits) == present,
        options_privilege_level(bits) == privilege_level,
        options_interrupts_enabled(bits) == interrupts_enabled,
        options_stack_slot(bits) == stack_slot,
{
}

proof fn lemma_options_writers(
    bits: u16,
    present: bool,
    privilege_level: u16,
    interrupts_enabled: bool,
    stack_slot: u16,
)
    by (bit_vector)
    requires
        options_valid(bits),
        privilege_level <= 3,
        stack_slot <= 7,
    ensures
        (bits & 0x7FFF) | (if present {
            0x8000u16
        } else {
            0u16
        }) == options_bits(
            present,
            options_privilege_level(bits),
            options_interrupts_enabled(bits),
            options_stack_slot(bits),
        ),
        (bits & 0x9FFF) | (privilege_level << 13) == options_bits(
            options_present(bits),
            privilege_level,
            options_interrupts_enabled(bits),
            options_stack_slot(bits),
        ),
        (bits & 0xFEFF) | (if interrupts_enabled {
            0x0100u16
        } else {
            0u16
        }) == options_bits(
            options_present(bits),
            options_privilege_level(bits),
            interrupts_enabled,
            options_stack_slot(bits),
        ),
        (bits & 0xFFF8) | stack_slot == options_bits(
            options_present(bits),
            options_privilege_level(bits),
            options_interrupts_enabled(bits),
            stack_slot,
        ),
{
}

/// The options `bits` with the present bit set or cleared: bit 15.
pub open spec fn with_present(bits: u16, present: bool) -> int {
    options_bits(
        present,
        options_privilege_level(bits),
        options_interrupts_enabled(bits),
        options_stack_slot(bits),
    )
}

/// The options `bits` with the descriptor privilege level `privilege_level`:
/// bits 13 and 14.
pub open spec fn with_privilege_level(bits: u16, privilege_level: u16) -> int {
    options_bits(
        options_present(bits),
        privilege_level,
        options_interrupts_enabled(bits),
        options_stack_slot(bits),
    )
}

/// The options `bits` with interrupts enabled or disabled on entry: bit 8.
pub open spec fn with_interrupts_enabled(bits: u16, interrupts_enabled: bool) -> int {
    options_bits(
        options_present(bits),
        options_privilege_level(bits),
        interrupts_enabled,
        options_stack_slot(bits),
    )
}

/// The options `bits` with the interrupt stack `stack_slot`: bits 0 to 2.
pub open spec fn with_stack_slot(bits: u16, stack_slot: u16) -> int {
    options_bits(
        options_present(bits),
        options_privilege_level(bits),
        options_interrupts_enabled(bits),
        stack_slot,
    )
}

/// The four writers of gate options touch different bits, so the order in
/// which two of them are applied does not matter: either order gives the
/// options that hold both new fields.
pub proof fn lemma_writers_commute(
    bits: u16,
    present: bool,
    privilege_level: u16,
    interrupts_enabled: bool,
    stack_slot: u16,
)
    requires
        options_valid(bits),
        privilege_level <= 3,
        stack_slot <= 7,
    ensures
        with_present(with_privilege_level(bits, privilege_level) as u16, present)
            == with_privilege_level(with_present(bits, present) as u16, privilege_level),
        with_present(with_interrupts_enabled(bits, interrupts_enabled) as u16, present)
            == with_interrupts_enabled(with_present(bits, present) as u16, interrupts_enabled),
        with_present(with_stack_slot(bits, stack_slot) as u16, present) == with_stack_slot(
            with_present(bits, present) as u16,
            stack_slot,
        ),
        with_privilege_level(
            with_interrupts_enabled(bits, interrupts_enabled) as u16,
            privilege_level,
        ) == with_interrupts_enabled(
            with_privilege_level(bits, privilege_level) as u16,
            interrupts_enabled,
        ),
        with_privilege_level(with_stack_slot(bits, stack_slot) as u16, privilege_level)
            == with_stack_slot(with_privilege_level(bits, privilege_level) as u16, stack_slot),
        with_interrupts_enabled(with_stack_slot(bits, stack_slot) as u16, interrupts_enabled)
            == with_stack_slot(
            with_interrupts_enabled(bits, interrupts_enabled) as u16,
            stack_slot,
        ),
{
    lemma_options_layout(bits);
    let level = options_privilege_level(bits);
    let slot = options_stack_slot(bits);
    let was_present = options_present(bits);
    let was_enabled = options_interrupts_enabled(bits);
    lemma_options_fields(
        with_present(bits, present) as u16,
        present,
        level,
        was_enabled,
        slot,
    );
    lemma_options_fields(
        with_privilege_level(bits, privilege_level) as u16,
        was_present,
        privilege_level,
        was_enabled,
        slot,
    );
    lemma_options_fields(
        with_interrupts_enabled(bits, interrupts_enabled) as u16,
        was_present,
        level,
        interrupts_enabled,
        slot,
    );
    lemma_options_fields(
        with_stack_slot(bits, stack_slot) as u16,
        was_present,
        level,
        was_enabled,
        stack_slot,
    );
}

proof fn lemma_options_mask(bits: u16)
    by (bit_vector)
    ensures
        options_valid(bits) <==> bits & 0x1EF8 == 0x0E00,
{
}

/// The input that a writer of gate options refused.
#[derive(Debug, Clone, Copy, PartialEq, Eq, Structural)]
pub enum GateOptionsError {
    /// A privilege level above 3.
    InvalidPrivilegeLevel(u8),
    /// An index that the interrupt stack table does not have.
    InvalidStackIndex(usize),
}

/// The sixteen option bits of a gate descriptor.
#[derive(Debug, Clone, Copy, PartialEq, Eq, Structural)]
pub struct GateOptions(u16);

impl View for GateOptions {
    type V = u16;

    closed spec fn view(&self) -> u16 {
        self.0
    }
}

impl GateOptions {
    #[verifier::type_invariant]
    closed spec fn inv(self) -> bool {
        options_valid(self.0)
    }

    /// Options are equal when their bits are.
    pub proof fn lemma_equal_by_bits(self, other: GateOptions)
        requires
            self@ == other@,
        ensures
            self == other,
    {
    }

    /// The options of a gate that is not in use: an interrupt gate that is not
    /// present, of privilege level 0, on the current stack.
    pub fn minimal() -> (r: Self)
        ensures
            r@ == 0x0E00,
            r@ == options_bits(false, 0, false, 0),
    {
        GateOptions(0x0E00)
    }

    /// The options of a gate in use: present, of privilege level 0, entered
    /// with interrupts disabled, on the current stack.
    pub fn default() -> (r: Self)
        ensures
            r@ == 0x8E00,
            r@ == options_bits(true, 0, false, 0),
    {
        proof {
            lemma_options_fields(0x0E00, false, 0, false, 0);
            lemma_options_fields(0x8E00, true, 0, false, 0);
        }
        GateOptions::minimal().set_present(true).dpl_0()
    }

    /// The options whose sixteen bits are `bits`, if these are the bits of
    /// valid options.
    pub fn from_bits(bits: u16) -> (r: Option<Self>)
        ensures
            options_valid(bits) ==> (r matches Some(o) && o@ == bits),
            !options_valid(bits) ==> r is None,
    {
        proof {
            lemma_options_mask(bits);
        }
        if bits & 0x1EF8 == 0x0E00 {
            Some(GateOptions(bits))
        } else {
            None
        }
    }

    /// The sixteen bits, which are always those of valid options.
    pub fn bits(&self) -> (r: u16)
        ensures
            r == self@,
            options_valid(r),
    {
        proof {
            use_type_invariant(self);
        }
        self.0
    }

    /// Sets or clears the present bit, and nothing else.
    pub fn set_present(self, present: bool) -> (r: Self)
        ensures
            r@ == with_present(self@, present),
    {
        let flag: u16 = if present {
            0x8000
        } else {
            0
        };
        proof {
            use_type_invariant(self);
            lemma_options_writers(self.0, present, 0, false, 0);
            lemma_options_layout(self.0);
            lemma_options_fields(
                ((self.0 & 0x7FFF) | (if present {
                    0x8000u16
                } else {
                    0u16
                })),
                present,
                options_privilege_level(self.0),
                options_interrupts_enabled(self.0),
                options_stack_slot(self.0),
            );
        }
        GateOptions((self.0 & 0x7FFF) | flag)
    }

    /// Sets the descriptor privilege level, and nothing else. A level above 3
    /// is refused.
    pub fn privilege_level(self, level: u8) -> (r: Result<Self, GateOptionsError>)
        ensures
            level <= 3 ==> (r matches Ok(o) && o@ == with_privilege_level(self@, level as u16)),
            level > 3 ==> r == Err::<Self, GateOptionsError>(
                GateOptionsError::InvalidPrivilegeLevel(level),
            ),
    {
        if level > 3 {
            return Err(GateOptionsError::InvalidPrivilegeLevel(level));
        }
        proof {
            use_type_invariant(self);
            lemma_options_writers(self.0, false, level as u16, false, 0);
            lemma_options_layout(self.0);
            lemma_options_fields(
                (self.0 & 0x9FFF) | ((level as u16) << 13),
                options_present(self.0),
                level as u16,
                options_interrupts_enabled(self.0),
                options_stack_slot(self.0),
            );
        }
        Ok(GateOptions((self.0 & 0x9FFF) | ((level as u16) << 13)))
    }

    /// Sets the descriptor privilege level to 0: only the kernel may raise the
    /// interrupt by an instruction.
    pub fn dpl_0(self) -> (r: Self)
        ensures
            r@ == with_privilege_level(self@, 0),
    {
        match self.privilege_level(0) {
            Ok(options) => options,
            Err(_) => self,
        }
    }

    /// Sets the descriptor privilege level to 3: user code may raise the
    /// interrupt by an instruction.
    pub fn dpl_3(self) -> (r: Self)
        ensures
            r@ == with_privilege_level(self@, 3),
    {
        match self.privilege_level(3) {
            Ok(options) => options,
            Err(_) => self,
        }
    }

    /// Says whether interrupts stay enabled when a gate is entered, and
    /// nothing else.
    pub fn interrupts_enabled_on_entry(self, enabled: bool) -> (r: Self)
        ensures
            r@ == with_interrupts_enabled(self@, enabled),
    {
        let flag: u16 = if enabled {
            0x0100
        } else {
            0
        };
        proof {
            use_type_invariant(self);
            lemma_options_writers(self.0, false, 0, enabled, 0);
            lemma_options_layout(self.0);
            lemma_options_fields(
                ((self.0 & 0xFEFF) | (if enabled {
                    0x0100u16
                } else {
                    0u16
                })),
                options_present(self.0),
                options_privilege_level(self.0),
                enabled,
                options_stack_slot(self.0),
            );
        }
        GateOptions((self.0 & 0xFEFF) | flag)
    }

    /// Lets interrupts stay enabled when a gate is entered.
    pub fn enable_interrupts(self) -> (r: Self)
        ensures
            r@ == with_interrupts_enabled(self@, true),
    {
        self.interrupts_enabled_on_entry(true)
    }

    /// Chooses the stack on which a gate is entered, and nothing else:
    /// `None` for the stack in use when the interrupt arrives, `Some(n)` for
    /// entry `n` of the interrupt stack table, which is written as `n + 1`.
    /// An index that the table does not have is refused.
    pub fn stack_index(self, stack_index: Option<usize>) -> (r: Result<Self, GateOptionsError>)
        ensures
            match stack_index {
                None => r matches Ok(o) && o@ == with_stack_slot(self@, 0),
                Some(n) => if n < INTERRUPT_STACKS {
                    r matches Ok(o) && o@ == with_stack_slot(self@, (n + 1) as u16)
                } else {
                    r == Err::<Self, GateOptionsError>(GateOptionsError::InvalidStackIndex(n))
                },
            },
    {
        let slot: u16 = match stack_index {
            None => 0,
            Some(n) => {
                if n >= INTERRUPT_STACKS {
                    return Err(GateOptionsError::InvalidStackIndex(n));
                }
                (n + 1) as u16
            },
        };
        proof {
            use_type_invariant(self);
            lemma_options_writers(self.0, false, 0, false, slot);
            lemma_options_layout(self.0);
            lemma_options_fields(
                (self.0 & 0xFFF8) | slot,
                options_present(self.0),
                options_privilege_level(self.0),
                options_interrupts_enabled(self.0),
                slot,
            );
        }
        Ok(GateOptions((self.0 & 0xFFF8) | slot))
    }

    /// Has a gate entered on entry `stack_index` of the interrupt stack
    /// table, which is written as `stack_index + 1`.
    pub fn set_stack_index(self, stack_index: usize) -> (r: Self)
        requires
            stack_index < INTERRUPT_STACKS,
        ensures
            r@ == with_stack_slot(self@, (stack_index + 1) as u16),
    {
        match self.stack_index(Some(stack_index)) {
            Ok(options) => options,
            Err(_) => self,
        }
    }
}

/// A gate descriptor, field by field in the order of the hardware layout. The
/// four reserved bytes that end the sixteen are always zero and are not held
/// here.
#[derive(Debug, Clone, Copy, PartialEq, Eq, Structural)]
pub struct GateDescriptor {
    pub offset_low: u16,
    pub segment: SegmentSelector,
    pub gate_options: GateOptions,
    pub offset_middle: u16,
    pub offset_high: u32,
}

/// The address of the handler that a gate names: its three offset fields put
/// together.
pub open spec fn gate_handler(gate: GateDescriptor) -> int {
    gate.offset_low + gate.offset_middle * 0x1_0000 + gate.offset_high * 0x1_0000_0000
}

/// The sixteen bytes of a gate as one little-endian number: `offset_low` in
/// bits 0 to 15, the segment selector in 16 to 31, the options in 32 to 47,
/// `offset_middle` in 48 to 63, `offset_high` in 64 to 95, and zero above.
pub open spec fn gate_bits(gate: GateDescriptor) -> int {
    gate.offset_low + gate.segment.0 * 0x1_0000 + gate.gate_options@ * 0x1_0000_0000
        + gate.offset_middle * 0x1_0000_0000_0000 + gate.offset_high * 0x1_0000_0000_0000_0000
}

/// The three offset fields of `gate` hold the address `handler`.
pub open spec fn gate_holds_handler(gate: GateDescriptor, handler: u64) -> bool {
    &&& gate.offset_low == handler % 0x1_0000
    &&& gate.offset_middle == handler / 0x1_0000 % 0x1_0000
    &&& gate.offset_high == handler / 0x1_0000_0000
}

/// The descriptor of a vector that is not in use: not present, with the null
/// selector and no handler.
pub open spec fn is_absent_gate(gate: GateDescriptor) -> bool {
    &&& gate.segment.0 == 0
    &&& gate.gate_options@ == 0x0E00
    &&& gate_holds_handler(gate, 0)
}

/// The descriptor of a vector that the kernel handles: present, of privilege level
/// 0, entered with interrupts disabled through `segment` on the stack
/// `stack_slot`, at `handler`.
pub open spec fn is_kernel_gate(
    gate: GateDescriptor,
    segment: SegmentSelector,
    stack_slot: u16,
    handler: u64,
) -> bool {
    &&& gate.segment == segment
    &&& gate.gate_options@ == options_bits(true, 0, false, stack_slot)
    &&& gate_holds_handler(gate, handler)
}

proof fn lemma_handler_digits(handler: u64)
    by (bit_vector)
    ensures
        handler & 0x0000_0000_0000_FFFF == handler % 0x1_0000,
        (handler & 0x0000_0000_FFFF_0000) >> 16 == handler / 0x1_0000 % 0x1_0000,
        (handler & 0xFFFF_FFFF_0000_0000) >> 32 == handler / 0x1_0000_0000,
        handler / 0x1_0000_0000 <= 0xFFFF_FFFF,
        handler % 0x1_0000 + (handler / 0x1_0000 % 0x1_0000) * 0x1_0000 + (handler
            / 0x1_0000_0000) * 0x1_0000_0000 == handler,
{
}

proof fn lemma_gate_packing(
    offset_low: u128,
    segment: u128,
    options: u128,
    offset_middle: u128,
    offset_high: u128,
)
    by (bit_vector)
    requires
        offset_low <= 0xFFFF,
        segment <= 0xFFFF,
        options <= 0xFFFF,
        offset_middle <= 0xFFFF,
        offset_high <= 0xFFFF_FFFF,
    ensures
        offset_low | segment << 16 | options << 32 | offset_middle << 48 | offset_high << 64
            == offset_low + segment * 0x1_0000 + options * 0x1_0000_0000 + offset_middle
            * 0x1_0000_0000_0000 + offset_high * 0x1_0000_0000_0000_0000,
{
}

proof fn lemma_gate_unpacking(bits: u128)
    by (bit_vector)
    requires
        bits >> 96 == 0,
    ensures
        bits < 0x1_0000_0000_0000_0000_0000_0000,
        bits & 0xFFFF == bits % 0x1_0000,
        (bits >> 16) & 0xFFFF == bits / 0x1_0000 % 0x1_0000,
        (bits >> 32) & 0xFFFF == bits / 0x1_0000_0000 % 0x1_0000,
        (bits >> 48) & 0xFFFF == bits / 0x1_0000_0000_0000 % 0x1_0000,
        bits >> 64 == bits / 0x1_0000_0000_0000_0000,
        bits / 0x1_0000_0000_0000_0000 <= 0xFFFF_FFFF,
        bits % 0x1_0000 + (bits / 0x1_0000 % 0x1_0000) * 0x1_0000 + (bits / 0x1_0000_0000
            % 0x1_0000) * 0x1_0000_0000 + (bits / 0x1_0000_0000_0000 % 0x1_0000)
            * 0x1_0000_0000_0000 + (bits / 0x1_0000_0000_0000_0000) * 0x1_0000_0000_0000_0000
            == bits,
{
}

proof fn lemma_gate_digits(
    offset_low: u128,
    segment: u128,
    options: u128,
    offset_middle: u128,
    offset_high: u128,
    bits: u128,
)
    by (bit_vector)
    requires
        offset_low <= 0xFFFF,
        segment <= 0xFFFF,
        options <= 0xFFFF,
        offset_middle <= 0xFFFF,
        offset_high <= 0xFFFF_FFFF,
        bits == offset_low + segment * 0x1_0000 + options * 0x1_0000_0000 + offset_middle
            * 0x1_0000_0000_0000 + offset_high * 0x1_0000_0000_0000_0000,
    ensures
        bits < 0x1_0000_0000_0000_0000_0000_0000,
        bits % 0x1_0000 == offset_low,
        bits / 0x1_0000 % 0x1_0000 == segment,
        bits / 0x1_0000_0000 % 0x1_0000 == options,
        bits / 0x1_0000_0000_0000 % 0x1_0000 == offset_middle,
        bits / 0x1_0000_0000_0000_0000 == offset_high,
{
}

/// The sixteen bytes of a descriptor say all there is to it: they stay below
/// 2^96, the option bits can be read off them, and two descriptors with the
/// same bytes are the same.
pub proof fn lemma_gate_bits_tell_all(gate: GateDescriptor, other: GateDescriptor)
    ensures
        0 <= gate_bits(gate) < 0x1_0000_0000_0000_0000_0000_0000,
        gate_bits(gate) / 0x1_0000_0000 % 0x1_0000 == gate.gate_options@,
        gate_bits(gate) == gate_bits(other) ==> gate == other,
{
    lemma_gate_digits(
        gate.offset_low as u128,
        gate.segment.0 as u128,
        gate.gate_options@ as u128,
        gate.offset_middle as u128,
        gate.offset_high as u128,
        gate_bits(gate) as u128,
    );
    lemma_gate_digits(
        other.offset_low as u128,
        other.segment.0 as u128,
        other.gate_options@ as u128,
        other.offset_middle as u128,
        other.offset_high as u128,
        gate_bits(other) as u128,
    );
    if gate_bits(gate) == gate_bits(other) {
        gate.gate_options.lemma_equal_by_bits(other.gate_options);
    }
}

/// A gate whose offset fields hold an address names that address.
pub proof fn lemma_gate_names_handler(gate: GateDescriptor, handler: u64)
    requires
        gate_holds_handler(gate, handler),
    ensures
        gate_handler(gate) == handler,
{
    lemma_handler_digits(handler);
}

impl GateDescriptor {
    /// The descriptor of a vector that is not in use: not present, with the null
    /// selector and no handler.
    pub fn new() -> (r: Self)
        ensures
            is_absent_gate(r),
            !options_present(r.gate_options@),
            gate_bits(r) == 0x0E00_0000_0000,
    {
        proof {
            lemma_options_fields(0x0E00, false, 0, false, 0);
        }
        GateDescriptor {
            offset_low: 0,
            segment: SegmentSelector(0),
            gate_options: GateOptions::minimal(),
            offset_middle: 0,
            offset_high: 0,
        }
    }

    /// A gate through `segment` with the options `gate_options`, and no
    /// handler yet.
    pub fn with_options(segment: SegmentSelector, gate_options: GateOptions) -> (r: Self)
        ensures
            r.segment == segment,
            r.gate_options == gate_options,
            gate_holds_handler(r, 0),
    {
        GateDescriptor {
            offset_low: 0,
            segment,
            gate_options,
            offset_middle: 0,
            offset_high: 0,
        }
    }

    /// Points this descriptor at the handler at `handler_address`: bits 0 to 15 of
    /// the address go to `offset_low`, bits 16 to 31 to `offset_middle` and
    /// bits 32 to 63 to `offset_high`.
    pub fn set_handler_address(self, handler_address: VirtualAddress) -> (r: Self)
        ensures
            r.segment == self.segment,
            r.gate_options == self.gate_options,
            gate_holds_handler(r, handler_address@),
            gate_handler(r) == handler_address@,
    {
        let address: u64 = handler_address.raw();
        proof {
            lemma_handler_digits(address);
        }
        GateDescriptor {
            offset_low: (address & 0x0000_0000_0000_FFFF) as u16,
            segment: self.segment,
            gate_options: self.gate_options,
            offset_middle: ((address & 0x0000_0000_FFFF_0000) >> 16) as u16,
            offset_high: ((address & 0xFFFF_FFFF_0000_0000) >> 32) as u32,
        }
    }

    /// Whether this descriptor is in use: the present bit of its options.
    pub fn is_present(&self) -> (r: bool)
        ensures
            r == options_present(self.gate_options@),
    {
        self.gate_options.bits() >= 0x8000
    }

    /// The descriptor whose sixteen bytes are `bits`, if there is one: the
    /// four reserved bytes must be zero and the option bits valid.
    pub fn from_bits(bits: u128) -> (r: Option<Self>)
        ensures
            r matches Some(gate) ==> gate_bits(gate) == bits,
            r is Some <==> bits < 0x1_0000_0000_0000_0000_0000_0000 && options_valid(
                (bits / 0x1_0000_0000 % 0x1_0000) as u16,
            ),
    {
        proof {
            assert(bits >> 96 == 0 <==> bits < 0x1_0000_0000_0000_0000_0000_0000) by (bit_vector);
        }
        if bits >> 96 != 0 {
            return None;
        }
        proof {
            lemma_gate_unpacking(bits);
        }
        match GateOptions::from_bits(((bits >> 32) & 0xFFFF) as u16) {
            Some(gate_options) => Some(
                GateDescriptor {
                    offset_low: (bits & 0xFFFF) as u16,
                    segment: SegmentSelector(((bits >> 16) & 0xFFFF) as u16),
                    gate_options,
                    offset_middle: ((bits >> 48) & 0xFFFF) as u16,
                    offset_high: (bits >> 64) as u32,
                },
            ),
            None => None,
        }
    }

    /// The sixteen bytes of this descriptor as one little-endian number.
    pub fn to_bits(&self) -> (r: u128)
        ensures
            r == gate_bits(*self),
    {
        proof {
            lemma_gate_packing(
                self.offset_low as u128,
                self.segment.0 as u128,
                self.gate_options@ as u128,
                self.offset_middle as u128,
                self.offset_high as u128,
            );
        }
        (self.offset_low as u128) | (self.segment.0 as u128) << 16 | (
        self.gate_options.bits() as u128) << 32 | (self.offset_middle as u128) << 48 | (
        self.offset_high as u128) << 64
    }
}

/// What the processor is given to find the interrupt descriptor table: the
/// table's size in bytes less one, and the address of its first byte.
#[derive(Debug, Clone, Copy)]
pub struct IdtPointer {
    pub limit: u16,
    pub base: VirtualAddress,
}

/// The interrupt descriptor table: one gate for each of the 256 vectors. The
/// gates of the vectors that the architecture keeps to itself are never
/// present.
#[derive(Debug, Clone, Copy)]
pub struct InterruptDescriptorTable {
    descriptor_table: [GateDescriptor; 256],
}

impl View for InterruptDescriptorTable {
    type V = Seq<GateDescriptor>;

    closed spec fn view(&self) -> Seq<GateDescriptor> {
        self.descriptor_table@
    }
}

impl InterruptDescriptorTable {
    #[verifier::type_invariant]
    closed spec fn inv(self) -> bool {
        forall|vector: int|
            0 <= vector < IDT_ENTRIES && is_reserved_vector(vector) ==> !options_present(
                (#[trigger] self.descriptor_table@[vector]).gate_options@,
            )
    }

    /// A table in which no vector is in use.
    pub fn new() -> (r: Self)
        ensures
            r@.len() == IDT_ENTRIES,
            forall|vector: int| 0 <= vector < IDT_ENTRIES ==> is_absent_gate(#[trigger] r@[vector]),
    {
        InterruptDescriptorTable { descriptor_table: [GateDescriptor::new();256] }
    }

    /// Writes `gate` into the slot of `vector`, and into no other. A vector
    /// that the architecture keeps to itself takes no gate that is present.
    pub fn add_entry(&mut self, vector: usize, gate: GateDescriptor)
        requires
            vector < IDT_ENTRIES,
            is_reserved_vector(vector as int) ==> !options_present(gate.gate_options@),
        ensures
            final(self)@ == old(self)@.update(vector as int, gate),
            final(self)@.len() == IDT_ENTRIES,
    {
        proof {
            use_type_invariant(&*self);
        }
        self.descriptor_table[vector] = gate;
    }

    /// The descriptor of `vector`. The descriptor of a vector that the architecture keeps
    /// to itself is not present.
    pub fn entry(&self, vector: usize) -> (r: GateDescriptor)
        requires
            vector < IDT_ENTRIES,
        ensures
            r == self@[vector as int],
            self@.len() == IDT_ENTRIES,
            is_reserved_vector(vector as int) ==> !options_present(r.gate_options@),
    {
        proof {
            use_type_invariant(self);
        }
        self.descriptor_table[vector]
    }

    /// The pointer to hand to the processor for a copy of this table that
    /// lies at `base`. The limit is the table's size in bytes less one.
    pub fn pointer(&self, base: VirtualAddress) -> (r: IdtPointer)
        ensures
            r.limit == IDT_ENTRIES * 16 - 1,
            r.base == base,
    {
        let limit = (IDT_ENTRIES * 16 - 1) as u16;
        IdtPointer { limit, base }
    }

    /// The table as the processor reads it: sixteen bytes for each vector, as
    /// little-endian numbers.
    pub fn to_bits(&self) -> (r: [u128; 256])
        ensures
            forall|vector: int|
                0 <= vector < IDT_ENTRIES ==> r@[vector] == gate_bits(#[trigger] self@[vector]),
    {
        let mut bits: [u128; 256] = [0;256];
        let mut i: usize = 0;
        while i < IDT_ENTRIES
            invariant
                i <= IDT_ENTRIES,
                forall|j: int| 0 <= j < i ==> bits@[j] == gate_bits(#[trigger] self@[j]),
            decreases IDT_ENTRIES - i,
        {
            bits[i] = self.descriptor_table[i].to_bits();
            i += 1;
        }
        bits
    }
}

/// The table after the descriptors of `entries` are written to it one after
/// the other, each to the slot of its vector.
pub open spec fn with_entries(
    table: Seq<GateDescriptor>,
    entries: Seq<(int, GateDescriptor)>,
) -> Seq<GateDescriptor>
    decreases entries.len(),
{
    if entries.len() == 0 {
        table
    } else {
        with_entries(table, entries.drop_last()).update(entries.last().0, entries.last().1)
    }
}

/// A vector to which nothing is written keeps its descriptor, whatever is
/// written to the others. So in a table that starts out with no vector in use,
/// every vector that is never written to stays not present.
pub proof fn lemma_unwritten_vectors_stay(
    table: Seq<GateDescriptor>,
    entries: Seq<(int, GateDescriptor)>,
    vector: int,
)
    requires
        table.len() == IDT_ENTRIES,
        0 <= vector < IDT_ENTRIES,
        forall|i: int|
            0 <= i < entries.len() ==> 0 <= (#[trigger] entries[i]).0 < IDT_ENTRIES
                && entries[i].0 != vector,
    ensures
        with_entries(table, entries).len() == IDT_ENTRIES,
        with_entries(table, entries)[vector] == table[vector],
        is_absent_gate(table[vector]) ==> !options_present(
            with_entries(table, entries)[vector].gate_options@,
        ),
    decreases entries.len(),
{
    lemma_options_fields(0x0E00, false, 0, false, 0);
    if entries.len() > 0 {
        let earlier = entries.drop_last();
        assert forall|i: int| 0 <= i < earlier.len() implies 0 <= (#[trigger] earlier[i]).0
            < IDT_ENTRIES && earlier[i].0 != vector by {
            assert(earlier[i] == entries[i]);
        }
        assert(entries.last() == entries[entries.len() - 1]);
        lemma_unwritten_vectors_stay(table, earlier, vector);
    }
}

/// The addresses of the handlers of the vectors that the kernel handles.
#[derive(Debug, Clone, Copy)]
pub struct HandlerAddresses {
    pub debug_exception: VirtualAddress,
    pub nmi: VirtualAddress,
    pub breakpoint: VirtualAddress,
    pub segment_not_present: VirtualAddress,
    pub double_fault: VirtualAddress,
    pub stack_segment_fault: VirtualAddress,
    pub general_protection_fault: VirtualAddress,
}

/// What is bound to a vector: the stack slot of its gate and the address of
/// its handler.
pub struct Binding {
    pub stack_slot: u16,
    pub handler: u64,
}

/// What the kernel binds to `vector`, if anything. Debug exception,
/// non-maskable interrupt, double fault, stack-segment fault and
/// general-protection fault each get an interrupt stack of their own;
/// breakpoint and segment not present stay on the stack in use.
pub open spec fn kernel_binding(vector: int, handlers: HandlerAddresses) -> Option<Binding> {
    if vector == DEBUG_EXCEPTION {
        Some(
            Binding {
                stack_slot: (DEBUG_STACK_TABLE_INDEX + 1) as u16,
                handler: handlers.debug_exception@,
            },
        )
    } else if vector == NMI_INTERRUPT {
        Some(Binding { stack_slot: (NMI_STACK_TABLE_INDEX + 1) as u16, handler: handlers.nmi@ })
    } else if vector == BREAKPOINT {
        Some(Binding { stack_slot: 0, handler: handlers.breakpoint@ })
    } else if vector == DOUBLE_FAULT {
        Some(
            Binding {
                stack_slot: (DOUBLE_FAULT_STACK_TABLE_INDEX + 1) as u16,
                handler: handlers.double_fault@,
            },
        )
    } else if vector == SEGMENT_NOT_PRESENT {
        Some(Binding { stack_slot: 0, handler: handlers.segment_not_present@ })
    } else if vector == STACK_SEGMENT_FAULT {
        Some(
            Binding {
                stack_slot: (STACK_SEGMENT_FAULT_STACK_TABLE_INDEX + 1) as u16,
                handler: handlers.stack_segment_fault@,
            },
        )
    } else if vector == GENERAL_PROTECTION {
        Some(
            Binding {
                stack_slot: (GENERAL_PROTECTION_STACK_TABLE_INDEX + 1) as u16,
                handler: handlers.general_protection_fault@,
            },
        )
    } else {
        None
    }
}

/// `table` is the kernel's table: the descriptor of each vector that the kernel
/// binds is a kernel gate through `segment` with the stack and the handler
/// bound to it, and the descriptor of every other vector is absent.
pub open spec fn is_kernel_idt(
    table: Seq<GateDescriptor>,
    segment: SegmentSelector,
    handlers: HandlerAddresses,
) -> bool {
    &&& table.len() == IDT_ENTRIES
    &&& forall|vector: int|
        0 <= vector < IDT_ENTRIES ==> match kernel_binding(vector, handlers) {
            Some(binding) => is_kernel_gate(
                #[trigger] table[vector],
                segment,
                binding.stack_slot,
                binding.handler,
            ),
            None => is_absent_gate(table[vector]),
        }
}

/// In the kernel's table a vector is in use exactly when the kernel binds a
/// handler to it. So the vectors that the architecture keeps to itself, and
/// all vectors from `0x20` on, are not present.
pub proof fn lemma_kernel_idt_presence(
    table: Seq<GateDescriptor>,
    segment: SegmentSelector,
    handlers: HandlerAddresses,
    vector: int,
)
    requires
        is_kernel_idt(table, segment, handlers),
        0 <= vector < IDT_ENTRIES,
    ensures
        options_present(table[vector].gate_options@) <==> kernel_binding(vector, handlers) is Some,
        is_reserved_vector(vector) || vector >= 0x20 ==> !options_present(
            table[vector].gate_options@,
        ),
{
    match kernel_binding(vector, handlers) {
        Some(binding) => {
            lemma_options_fields(table[vector].gate_options@, true, 0, false, binding.stack_slot);
        },
        None => {
            lemma_options_fields(0x0E00, false, 0, false, 0);
        },
    }
}

/// In the kernel's table the gates of double fault, general-protection fault
/// and stack-segment fault each name an interrupt stack, and these three
/// stacks differ from each other and from those of the debug exception and
/// the non-maskable interrupt.
pub proof fn lemma_kernel_idt_fault_stacks(
    table: Seq<GateDescriptor>,
    segment: SegmentSelector,
    handlers: HandlerAddresses,
)
    requires
        is_kernel_idt(table, segment, handlers),
    ensures
        ({
            let double_fault = options_stack_slot(table[DOUBLE_FAULT as int].gate_options@);
            let general_protection = options_stack_slot(
                table[GENERAL_PROTECTION as int].gate_options@,
            );
            let stack_segment = options_stack_slot(
                table[STACK_SEGMENT_FAULT as int].gate_options@,
            );
            let debug = options_stack_slot(table[DEBUG_EXCEPTION as int].gate_options@);
            let nmi = options_stack_slot(table[NMI_INTERRUPT as int].gate_options@);
            &&& double_fault != 0 && general_protection != 0 && stack_segment != 0
            &&& double_fault != general_protection && double_fault != stack_segment
                && general_protection != stack_segment
            &&& double_fault != debug && double_fault != nmi
            &&& general_protection != debug && general_protection != nmi
            &&& stack_segment != debug && stack_segment != nmi
        }),
{
    lemma_kernel_gate_stack(table, segment, handlers, DOUBLE_FAULT as int);
    lemma_kernel_gate_stack(table, segment, handlers, GENERAL_PROTECTION as int);
    lemma_kernel_gate_stack(table, segment, handlers, STACK_SEGMENT_FAULT as int);
    lemma_kernel_gate_stack(table, segment, handlers, DEBUG_EXCEPTION as int);
    lemma_kernel_gate_stack(table, segment, handlers, NMI_INTERRUPT as int);
}

/// In the kernel's table the descriptor of a vector that the kernel binds names the
/// stack slot bound to it, which is at most 7.
pub proof fn lemma_kernel_gate_stack(
    table: Seq<GateDescriptor>,
    segment: SegmentSelector,
    handlers: HandlerAddresses,
    vector: int,
)
    requires
        is_kernel_idt(table, segment, handlers),
        0 <= vector < IDT_ENTRIES,
        kernel_binding(vector, handlers) is Some,
    ensures
        options_stack_slot(table[vector].gate_options@) == kernel_binding(
            vector,
            handlers,
        ).unwrap().stack_slot,
        kernel_binding(vector, handlers).unwrap().stack_slot <= 7,
{
    let stack_slot = kernel_binding(vector, handlers).unwrap().stack_slot;
    lemma_options_fields(table[vector].gate_options@, true, 0, false, stack_slot);
}

/// Builds the kernel's table: the seven vectors that the kernel handles get
/// gates through `kernel_code_segment`, and every other vector stays absent.
pub fn kernel_idt(kernel_code_segment: SegmentSelector, handlers: &HandlerAddresses) -> (r:
    InterruptDescriptorTable)
    ensures
        is_kernel_idt(r@, kernel_code_segment, *handlers),
{
    let mut idt = InterruptDescriptorTable::new();
    let debug_exception_gate_descriptor = GateDescriptor::with_options(
        kernel_code_segment,
        GateOptions::default().set_stack_index(DEBUG_STACK_TABLE_INDEX),
    ).set_handler_address(handlers.debug_exception);
    let nmi_gate_descriptor = GateDescriptor::with_options(
        kernel_code_segment,
        GateOptions::default().set_stack_index(NMI_STACK_TABLE_INDEX),
    ).set_handler_address(handlers.nmi);
    let breakpoint_gate_descriptor = GateDescriptor::with_options(
        kernel_code_segment,
        GateOptions::default(),
    ).set_handler_address(handlers.breakpoint);
    let segment_not_present_descriptor = GateDescriptor::with_options(
        kernel_code_segment,
        GateOptions::default(),
    ).set_handler_address(handlers.segment_not_present);
    let double_fault_descriptor = GateDescriptor::with_options(
        kernel_code_segment,
        GateOptions::default().set_stack_index(DOUBLE_FAULT_STACK_TABLE_INDEX),
    ).set_handler_address(handlers.double_fault);
    let stack_segment_fault_descriptor = GateDescriptor::with_options(
        kernel_code_segment,
        GateOptions::default().set_stack_index(STACK_SEGMENT_FAULT_STACK_TABLE_INDEX),
    ).set_handler_address(handlers.stack_segment_fault);
    let general_protection_fault_gate_descriptor = GateDescriptor::with_options(
        kernel_code_segment,
        GateOptions::default().set_stack_index(GENERAL_PROTECTION_STACK_TABLE_INDEX),
    ).set_handler_address(handlers.general_protection_fault);
    proof {
        lemma_options_fields(0x8E00, true, 0, false, 0);
    }
    idt.add_entry(DEBUG_EXCEPTION, debug_exception_gate_descriptor);
    idt.add_entry(NMI_INTERRUPT, nmi_gate_descriptor);
    idt.add_entry(BREAKPOINT, breakpoint_gate_descriptor);
    idt.add_entry(SEGMENT_NOT_PRESENT, segment_not_present_descriptor);
    idt.add_entry(DOUBLE_FAULT, double_fault_descriptor);
    idt.add_entry(STACK_SEGMENT_FAULT, stack_segment_fault_descriptor);
    idt.add_entry(GENERAL_PROTECTION, general_protection_fault_gate_descriptor);
    idt
}

} // verus!
