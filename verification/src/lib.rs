//! Register-description subsystem of a GDB Remote Serial Protocol adapter for
//! RISC-V targets.
//!
//! The crate builds the canonical, ordered catalog of machine registers a
//! debugger client may inspect and synthesizes the feature documents a
//! GDB-compatible client requests via `qXfer` transfers: a target-description
//! document (`target.xml`) and a thread-list document.

pub mod cpu;
pub mod document;
pub mod numerals;
pub mod registers;

pub use cpu::RiscvCpu;
pub use cpu::RiscvCpuError;
pub use registers::RiscvRegister;
pub use registers::RiscvRegisterType;
