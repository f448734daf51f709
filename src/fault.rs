//! Faults raised while executing an instruction.

use vstd::prelude::*;

verus! {

/// Why an instruction could not complete. The outer loop turns a fault into
/// the matching architectural exception.
#[derive(PartialEq, Eq, Structural, Debug, Copy, Clone)]
pub enum Fault {
    /// An undefined or unimplemented encoding (UsageFault, UNDEFINSTR).
    UndefinedInstruction,
    /// A branch that would leave Thumb state (UsageFault, INVSTATE).
    InvalidState,
    /// A misaligned memory access (UsageFault, UNALIGNED).
    UnalignedAccess,
    /// A division by zero (UsageFault, DIVBYZERO).
    DivideByZero,
}

} // verus!
