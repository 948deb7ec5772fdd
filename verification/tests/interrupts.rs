use flap_os::interrupts::consts::{
    is_reserved, DOUBLE_FAULT, FIRST_USER_VECTOR, GENERAL_PROTECTION, PAGE_FAULT,
    VIRTUALIZATION_EXCEPTION,
};
use flap_os::interrupts::interrupt_handlers::{
    exception_name, fault_report, pushes_error_code, Disposition, InterruptStackFrame,
};

fn frame() -> InterruptStackFrame {
    InterruptStackFrame {
        instruction_pointer: 0xFFFF_8000_0000_1234,
        segment_selector: 0x08,
        rflags: 0x202,
        stack_pointer: 0xFFFF_8000_0020_0FF8,
        stack_segment: 0x10,
    }
}

#[test]
fn reserved_vectors() {
    for vector in 0..256usize {
        let expected = vector == 0x09 || vector == 0x0F || (0x15..=0x1F).contains(&vector);
        assert_eq!(is_reserved(vector), expected);
    }
    assert!(!is_reserved(VIRTUALIZATION_EXCEPTION));
    assert!(!is_reserved(FIRST_USER_VECTOR));
}

#[test]
fn vectors_with_an_error_code() {
    for vector in 0..256usize {
        let expected = matches!(vector, 8 | 10 | 11 | 12 | 13 | 14 | 17);
        assert_eq!(pushes_error_code(vector), expected);
    }
}

#[test]
fn names_of_the_vectors_that_the_kernel_handles() {
    assert_eq!(exception_name(1), Some("DEBUG"));
    assert_eq!(exception_name(2), Some("NON-MASKABLE INTERRUPT"));
    assert_eq!(exception_name(3), Some("BREAKPOINT"));
    assert_eq!(exception_name(8), Some("DOUBLE FAULT"));
    assert_eq!(exception_name(0xB), Some("SEGMENT NOT PRESENT"));
    assert_eq!(exception_name(0xC), Some("STACK SEGMENT FAULT"));
    assert_eq!(exception_name(0xD), Some("GENERAL PROTECTION FAULT"));
    assert_eq!(exception_name(0), None);
    assert_eq!(exception_name(PAGE_FAULT), None);
    assert_eq!(exception_name(0x20), None);
}

#[test]
fn a_fault_is_reported_and_halts() {
    let report = fault_report(DOUBLE_FAULT, 0, frame());
    assert_eq!(report.vector, 8);
    assert_eq!(report.error_code, Some(0));
    assert_eq!(report.stack_frame, frame());
    assert_eq!(report.disposition, Disposition::Halt);
    let report = fault_report(GENERAL_PROTECTION, 0x2B, frame());
    assert_eq!(report.vector, 0xD);
    assert_eq!(report.error_code, Some(0x2B));
    assert_eq!(report.disposition, Disposition::Halt);
}

#[test]
fn a_vector_without_error_code_reports_none() {
    let report = fault_report(3, 0xDEAD, frame());
    assert_eq!(report.vector, 3);
    assert_eq!(report.error_code, None);
    assert_eq!(report.stack_frame.instruction_pointer, 0xFFFF_8000_0000_1234);
    assert_eq!(report.stack_frame.stack_segment, 0x10);
    assert_eq!(report.disposition, Disposition::Halt);
}
