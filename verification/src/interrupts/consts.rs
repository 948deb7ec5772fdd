//! The vector numbers of the exceptions that the architecture defines.

use vstd::prelude::*;

verus! {

pub const DIVIDE_ERROR: usize = 0x00;

pub const DEBUG_EXCEPTION: usize = 0x01;

/// The non-maskable interrupt.
pub const NMI_INTERRUPT: usize = 0x02;

pub const BREAKPOINT: usize = 0x03;

pub const OVERFLOW: usize = 0x04;

pub const BOUND_RANGE_EXCEEDED: usize = 0x05;

pub const INVALID_OPCODE: usize = 0x06;

pub const DEVICE_NOT_AVAILABLE: usize = 0x07;

pub const DOUBLE_FAULT: usize = 0x08;

/// Reserved, not in use.
pub const COPROCESSOR_SEGMENT_OVERRUN: usize = 0x09;

pub const INVALID_TSS: usize = 0x0A;

pub const SEGMENT_NOT_PRESENT: usize = 0x0B;

pub const STACK_SEGMENT_FAULT: usize = 0x0C;

pub const GENERAL_PROTECTION: usize = 0x0D;

pub const PAGE_FAULT: usize = 0x0E;

pub const X87_FLOATING_POINT_ERROR: usize = 0x10;

pub const ALIGNMENT_CHECK: usize = 0x11;

pub const MACHINE_CHECK: usize = 0x12;

pub const SIMD_FLOATING_POINT_EXCEPTION: usize = 0x13;

pub const VIRTUALIZATION_EXCEPTION: usize = 0x14;

/// The first of the vectors that are left to devices and to the user.
pub const FIRST_USER_VECTOR: usize = 0x20;

/// The vectors below `0x20` that the architecture keeps to itself: `0x09`,
/// `0x0F` and `0x15` to `0x1F`. No handler is ever bound to one of them.
pub open spec fn is_reserved_vector(vector: int) -> bool {
    vector == 0x09 || vector == 0x0F || 0x15 <= vector <= 0x1F
}

/// Whether `vector` is one of the vectors that the architecture keeps to
/// itself.
pub fn is_reserved(vector: usize) -> (r: bool)
    ensures
        r == is_reserved_vector(vector as int),
{
    vector == COPROCESSOR_SEGMENT_OVERRUN || vector == 0x0F || (0x15 <= vector && vector <= 0x1F)
}

} // verus!
