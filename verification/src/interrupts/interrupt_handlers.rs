//! What an interrupt handler is given, and what it makes of it.

use crate::interrupts::consts::{
    ALIGNMENT_CHECK, BREAKPOINT, DEBUG_EXCEPTION, DOUBLE_FAULT, GENERAL_PROTECTION, INVALID_TSS,
    NMI_INTERRUPT, PAGE_FAULT, SEGMENT_NOT_PRESENT, STACK_SEGMENT_FAULT,
};
use vstd::prelude::*;

verus! {

/// What the processor pushes before it enters a handler, in the order of the
/// fields in memory.
#[derive(Debug, Clone, Copy, PartialEq, Eq, Structural)]
pub struct InterruptStackFrame {
    pub instruction_pointer: u64,
    pub segment_selector: u64,
    pub rflags: u64,
    pub stack_pointer: u64,
    pub stack_segment: u64,
}

/// What a handler does once it has reported.
#[derive(Debug, Clone, Copy, PartialEq, Eq, Structural)]
pub enum Disposition {
    /// The processor is halted and does not leave the handler.
    Halt,
}

/// What a handler reports: the vector, the error code if the processor
/// pushes one for the vector, and the stack frame.
#[derive(Debug, Clone, Copy, PartialEq, Eq, Structural)]
pub struct FaultReport {
    pub vector: usize,
    pub error_code: Option<u64>,
    pub stack_frame: InterruptStackFrame,
    pub disposition: Disposition,
}

/// The vectors for which the processor pushes an error code: double fault,
/// invalid TSS, segment not present, stack-segment fault, general protection,
/// page fault and alignment check.
pub open spec fn has_error_code(vector: int) -> bool {
    vector == DOUBLE_FAULT || (INVALID_TSS <= vector <= PAGE_FAULT) || vector == ALIGNMENT_CHECK
}

/// Whether the processor pushes an error code for `vector`.
pub fn pushes_error_code(vector: usize) -> (r: bool)
    ensures
        r == has_error_code(vector as int),
{
    vector == DOUBLE_FAULT || (INVALID_TSS <= vector && vector <= PAGE_FAULT) || vector
        == ALIGNMENT_CHECK
}

/// The name under which the kernel reports a vector that it handles.
pub open spec fn exception_name_of(vector: int) -> Option<Seq<char>> {
    if vector == DEBUG_EXCEPTION {
        Some("DEBUG"@)
    } else if vector == NMI_INTERRUPT {
        Some("NON-MASKABLE INTERRUPT"@)
    } else if vector == BREAKPOINT {
        Some("BREAKPOINT"@)
    } else if vector == DOUBLE_FAULT {
        Some("DOUBLE FAULT"@)
    } else if vector == SEGMENT_NOT_PRESENT {
        Some("SEGMENT NOT PRESENT"@)
    } else if vector == STACK_SEGMENT_FAULT {
        Some("STACK SEGMENT FAULT"@)
    } else if vector == GENERAL_PROTECTION {
        Some("GENERAL PROTECTION FAULT"@)
    } else {
        None
    }
}

/// The name under which the kernel reports `vector`, if it handles it.
pub fn exception_name(vector: usize) -> (r: Option<&'static str>)
    ensures
        match r {
            Some(name) => exception_name_of(vector as int) == Some(name@),
            None => exception_name_of(vector as int) is None,
        },
{
    if vector == DEBUG_EXCEPTION {
        Some("DEBUG")
    } else if vector == NMI_INTERRUPT {
        Some("NON-MASKABLE INTERRUPT")
    } else if vector == BREAKPOINT {
        Some("BREAKPOINT")
    } else if vector == DOUBLE_FAULT {
        Some("DOUBLE FAULT")
    } else if vector == SEGMENT_NOT_PRESENT {
        Some("SEGMENT NOT PRESENT")
    } else if vector == STACK_SEGMENT_FAULT {
        Some("STACK SEGMENT FAULT")
    } else if vector == GENERAL_PROTECTION {
        Some("GENERAL PROTECTION FAULT")
    } else {
        None
    }
}

/// What the handler of `vector` reports when it is entered with
/// `stack_frame`, and with `error_code` where the processor pushes one. The
/// vector and the frame are reported as they came, the error code only for a
/// vector that has one, and every fault halts the processor.
pub fn fault_report(vector: usize, error_code: u64, stack_frame: InterruptStackFrame) -> (r:
    FaultReport)
    ensures
        r.vector == vector,
        r.error_code == (if has_error_code(vector as int) {
            Some(error_code)
        } else {
            None
        }),
        r.stack_frame == stack_frame,
        r.disposition == Disposition::Halt,
{
    let error_code = if pushes_error_code(vector) {
        Some(error_code)
    } else {
        None
    };
    FaultReport { vector, error_code, stack_frame, disposition: Disposition::Halt }
}

} // verus!
