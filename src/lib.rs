//! Instruction execution core of an ARM Cortex-M (ARMv6-M / partial ARMv7-M)
//! emulator: bit primitives, arithmetic helpers, registers, decoding and execution.

pub mod bits;
pub mod bus;
pub mod condition;
pub mod cpu;
pub mod decoder;
pub mod register;
pub mod semihosting;
pub mod theorems;
pub mod exception;
pub mod executor;
pub mod fault;
pub mod instruction;
pub mod operation;
