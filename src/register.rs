//! General registers, special registers and the program status register.

use vstd::prelude::*;

verus! {

/// A general register `r0..r15`; `r13` is the stack pointer, `r14` the link
/// register and `r15` the program counter.
#[derive(PartialEq, Eq, Structural, Debug, Copy, Clone)]
pub enum Reg {
    R0,
    R1,
    R2,
    R3,
    R4,
    R5,
    R6,
    R7,
    R8,
    R9,
    R10,
    R11,
    R12,
    SP,
    LR,
    PC,
}

/// The number of a register.
pub open spec fn reg_index(r: Reg) -> nat {
    match r {
        Reg::R0 => 0,
        Reg::R1 => 1,
        Reg::R2 => 2,
        Reg::R3 => 3,
        Reg::R4 => 4,
        Reg::R5 => 5,
        Reg::R6 => 6,
        Reg::R7 => 7,
        Reg::R8 => 8,
        Reg::R9 => 9,
        Reg::R10 => 10,
        Reg::R11 => 11,
        Reg::R12 => 12,
        Reg::SP => 13,
        Reg::LR => 14,
        Reg::PC => 15,
    }
}

/// The register of a four-bit selector (the value modulo 16).
pub open spec fn reg_of(v: nat) -> Reg {
    let i = v % 16;
    if i == 0 {
        Reg::R0
    } else if i == 1 {
        Reg::R1
    } else if i == 2 {
        Reg::R2
    } else if i == 3 {
        Reg::R3
    } else if i == 4 {
        Reg::R4
    } else if i == 5 {
        Reg::R5
    } else if i == 6 {
        Reg::R6
    } else if i == 7 {
        Reg::R7
    } else if i == 8 {
        Reg::R8
    } else if i == 9 {
        Reg::R9
    } else if i == 10 {
        Reg::R10
    } else if i == 11 {
        Reg::R11
    } else if i == 12 {
        Reg::R12
    } else if i == 13 {
        Reg::SP
    } else if i == 14 {
        Reg::LR
    } else {
        Reg::PC
    }
}

impl Reg {
    /// The register of the selector `v % 16`.
    pub fn from_index(v: u32) -> (r: Reg)
        ensures
            r == reg_of(v as nat),
    {
        match v % 16 {
            0 => Reg::R0,
            1 => Reg::R1,
            2 => Reg::R2,
            3 => Reg::R3,
            4 => Reg::R4,
            5 => Reg::R5,
            6 => Reg::R6,
            7 => Reg::R7,
            8 => Reg::R8,
            9 => Reg::R9,
            10 => Reg::R10,
            11 => Reg::R11,
            12 => Reg::R12,
            13 => Reg::SP,
            14 => Reg::LR,
            _ => Reg::PC,
        }
    }

    /// The number of the register.
    pub fn index(&self) -> (r: usize)
        ensures
            r == reg_index(*self),
    {
        match self {
            Reg::R0 => 0,
            Reg::R1 => 1,
            Reg::R2 => 2,
            Reg::R3 => 3,
            Reg::R4 => 4,
            Reg::R5 => 5,
            Reg::R6 => 6,
            Reg::R7 => 7,
            Reg::R8 => 8,
            Reg::R9 => 9,
            Reg::R10 => 10,
            Reg::R11 => 11,
            Reg::R12 => 12,
            Reg::SP => 13,
            Reg::LR => 14,
            Reg::PC => 15,
        }
    }
}

impl From<u8> for Reg {
    fn from(value: u8) -> (r: Reg) {
        Reg::from_index(value as u32)
    }
}

impl vstd::std_specs::convert::FromSpecImpl<u8> for Reg {
    open spec fn obeys_from_spec() -> bool {
        true
    }

    open spec fn from_spec(v: u8) -> Reg {
        reg_of(v as nat)
    }
}

impl From<u32> for Reg {
    fn from(value: u32) -> (r: Reg) {
        Reg::from_index(value)
    }
}

impl vstd::std_specs::convert::FromSpecImpl<u32> for Reg {
    open spec fn obeys_from_spec() -> bool {
        true
    }

    open spec fn from_spec(v: u32) -> Reg {
        reg_of(v as nat)
    }
}

/// A special register reached by MRS and MSR.
#[allow(non_camel_case_types)]
#[derive(PartialEq, Eq, Structural, Debug, Copy, Clone)]
pub enum SpecialReg {
    APSR,
    IAPSR,
    EAPSR,
    XPSR,
    IPSR,
    EPSR,
    IEPSR,
    MSP,
    PSP,
    PRIMASK,
    BASEPRI,
    BASEPRI_MAX,
    FAULTMASK,
    CONTROL,
}

/// A set of general registers, bit `i` standing for register `i`.
#[derive(PartialEq, Eq, Structural, Debug, Copy, Clone)]
pub struct RegSet {
    pub bits: u16,
}

/// Whether register number `i` is in the set `bits`.
pub open spec fn in_set(bits: u16, i: nat) -> bool {
    crate::bits::bit_set(bits as nat, i)
}

/// The number of registers in the set `bits` among numbers `i..16`.
pub open spec fn count_from(bits: u16, i: nat) -> nat
    decreases 16 - i,
{
    if i >= 16 {
        0
    } else {
        (if in_set(bits, i) { 1nat } else { 0nat }) + count_from(bits, i + 1)
    }
}

/// Program status: the APSR flags, the IPSR exception number and the IT state.
#[derive(PartialEq, Eq, Structural, Debug, Copy, Clone)]
pub struct Psr {
    pub n: bool,
    pub z: bool,
    pub c: bool,
    pub v: bool,
    pub exception_number: u16,
    pub itstate: u8,
}

impl Psr {
    /// N becomes the sign bit of `result`.
    pub fn set_n(&mut self, result: u32)
        ensures
            *final(self) == (Psr { n: result >= 0x8000_0000, ..*old(self) }),
    {
        self.n = (result >> 31) != 0;
        proof {
            assert(((result >> 31) != 0) == (result >= 0x8000_0000)) by (bit_vector);
        }
    }

    /// Z becomes whether `result` is zero.
    pub fn set_z(&mut self, result: u32)
        ensures
            *final(self) == (Psr { z: result == 0, ..*old(self) }),
    {
        self.z = result == 0;
    }

    pub fn set_c(&mut self, c: bool)
        ensures
            *final(self) == (Psr { c: c, ..*old(self) }),
    {
        self.c = c;
    }

    pub fn set_v(&mut self, v: bool)
        ensures
            *final(self) == (Psr { v: v, ..*old(self) }),
    {
        self.v = v;
    }

    pub fn get_c(&self) -> (r: bool)
        ensures
            r == self.c,
    {
        self.c
    }

    /// The number of the active exception, 0 in Thread mode.
    pub fn get_exception_number(&self) -> (r: u16)
        ensures
            r == self.exception_number,
    {
        self.exception_number
    }
}

/// The CONTROL register: stack selection and unprivileged Thread mode.
#[derive(PartialEq, Eq, Structural, Debug, Copy, Clone)]
pub struct Control {
    pub spsel: bool,
    pub npriv: bool,
}

} // verus!
