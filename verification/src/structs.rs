//! The processor's descriptor tables: GDT, TSS and IDT.

pub mod gdt;
pub mod idt;
pub mod tss;
