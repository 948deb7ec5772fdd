//! Interrupt vectors and what an interrupt handler is given.

pub mod consts;
pub mod interrupt_handlers;
