//! Driver for the PL011 UARTs of the QEMU machines.
//!
//! The peripheral is seen through a window of 32-bit registers at fixed word
//! offsets. `layout` names the registers, their offsets and their access
//! modes, `bits` decodes the few bits the driver consumes, `regs` is the
//! register window as plain values, and `uart` is the polling driver on top.
//! `nonblocking` brings in the error of non-blocking operations, and `laws`
//! states what holds across several driver operations.

pub mod bits;
pub mod laws;
pub mod layout;
pub mod nonblocking;
pub mod regs;
pub mod uart;

pub use layout::{Access, Register};
pub use regs::{PL011_Regs, RegsModel};
pub use uart::{Error, UartStatus, PL011};
