//! The decoded form of a Thumb instruction.

use crate::condition::Condition;
use crate::register::{Reg, RegSet, SpecialReg};
use vstd::prelude::*;

verus! {

/// Shift or rotate kind of an operand.
#[derive(PartialEq, Eq, Structural, Debug, Copy, Clone)]
pub enum SRType {
    LSL,
    LSR,
    ASR,
    RRX,
    ROR,
}

/// The effect field of CPS.
#[derive(PartialEq, Eq, Structural, Debug, Copy, Clone)]
pub enum CpsEffect {
    IE,
    ID,
}

/// A decoded instruction with its operands resolved.
#[allow(non_camel_case_types)]
#[derive(PartialEq, Eq, Structural, Debug, Copy, Clone)]
pub enum Instruction {
    ADC_reg { rd: Reg, rn: Reg, rm: Reg, setflags: bool },
    ADD_imm { rd: Reg, rn: Reg, imm32: u32, setflags: bool, thumb32: bool },
    ADD_reg { rd: Reg, rn: Reg, rm: Reg, setflags: bool },
    ADR { rd: Reg, imm32: u32 },
    AND_reg { rd: Reg, rn: Reg, rm: Reg, setflags: bool },
    ASR_imm { rd: Reg, rm: Reg, imm5: u8, setflags: bool },
    ASR_reg { rd: Reg, rn: Reg, rm: Reg, setflags: bool },
    B { cond: Condition, imm32: i32 },
    BIC_reg { rd: Reg, rn: Reg, rm: Reg, setflags: bool },
    BKPT { imm32: u32 },
    BL { imm32: i32 },
    BLX { rm: Reg },
    BX { rm: Reg },
    CBZ { rn: Reg, nonzero: bool, imm32: u32 },
    CMN_reg { rn: Reg, rm: Reg },
    CMP_imm { rn: Reg, imm32: u32, thumb32: bool },
    CMP_reg { rn: Reg, rm: Reg, shift_t: SRType, shift_n: u8, thumb32: bool },
    CPS { im: CpsEffect },
    DMB,
    DSB,
    EOR_reg { rd: Reg, rn: Reg, rm: Reg, setflags: bool },
    ISB,
    IT { firstcond: Condition, mask: u8 },
    LDM { registers: RegSet, rn: Reg },
    LDR_imm { rt: Reg, rn: Reg, imm32: u32, index: bool, add: bool, wback: bool, thumb32: bool },
    LDR_lit { rt: Reg, imm32: u32, thumb32: bool },
    LDR_reg { rt: Reg, rn: Reg, rm: Reg },
    LDRB_imm { rt: Reg, rn: Reg, imm32: u32 },
    LDRB_reg { rt: Reg, rn: Reg, rm: Reg },
    LDRH_imm { rt: Reg, rn: Reg, imm32: u32 },
    LDRH_reg { rt: Reg, rn: Reg, rm: Reg },
    LDRSB_reg { rt: Reg, rn: Reg, rm: Reg },
    LDRSH_reg { rt: Reg, rn: Reg, rm: Reg },
    LSL_imm { rd: Reg, rm: Reg, imm5: u8, setflags: bool },
    LSL_reg { rd: Reg, rn: Reg, rm: Reg, setflags: bool },
    LSR_imm { rd: Reg, rm: Reg, imm5: u8, setflags: bool },
    LSR_reg { rd: Reg, rn: Reg, rm: Reg, setflags: bool },
    MOV_imm { rd: Reg, imm32: u32, setflags: bool },
    MOV_reg { rd: Reg, rm: Reg, setflags: bool },
    MRS { rd: Reg, spec_reg: SpecialReg },
    MSR_reg { rn: Reg, spec_reg: SpecialReg },
    MUL { rd: Reg, rn: Reg, rm: Reg, setflags: bool },
    MVN_imm { rd: Reg, imm32: u32, setflags: bool },
    MVN_reg { rd: Reg, rm: Reg, setflags: bool },
    NOP,
    ORR_imm { rd: Reg, rn: Reg, imm32: u32, setflags: bool },
    ORR_reg { rd: Reg, rn: Reg, rm: Reg, setflags: bool },
    POP { registers: RegSet },
    PUSH { registers: RegSet, thumb32: bool },
    REV { rd: Reg, rm: Reg },
    REV16 { rd: Reg, rm: Reg },
    REVSH { rd: Reg, rm: Reg },
    ROR_reg { rd: Reg, rn: Reg, rm: Reg, setflags: bool },
    RSB_imm { rd: Reg, rn: Reg, imm32: u32, setflags: bool },
    SBC_reg { rd: Reg, rn: Reg, rm: Reg, setflags: bool },
    SEV,
    STM { registers: RegSet, rn: Reg, wback: bool },
    STR_imm { rt: Reg, rn: Reg, imm32: u32, index: bool, add: bool, wback: bool, thumb32: bool },
    STR_reg { rt: Reg, rn: Reg, rm: Reg },
    STRB_imm { rt: Reg, rn: Reg, imm32: u32 },
    STRB_reg { rt: Reg, rn: Reg, rm: Reg },
    STRH_imm { rt: Reg, rn: Reg, imm32: u32 },
    STRH_reg { rt: Reg, rn: Reg, rm: Reg },
    SUB_imm { rd: Reg, rn: Reg, imm32: u32, setflags: bool, thumb32: bool },
    SUB_reg {
        rd: Reg,
        rn: Reg,
        rm: Reg,
        setflags: bool,
        shift_t: SRType,
        shift_n: u8,
        thumb32: bool,
    },
    SVC { imm32: u32 },
    SXTB { rd: Reg, rm: Reg },
    SXTH { rd: Reg, rm: Reg },
    TBB { rn: Reg, rm: Reg },
    TST_reg { rn: Reg, rm: Reg },
    UDF { imm32: u32, opcode: u32, thumb32: bool },
    UXTB { rd: Reg, rm: Reg },
    UXTH { rd: Reg, rm: Reg },
    WFE,
    WFI,
    YIELD,
    MCR { rt: Reg, coproc: u8, opc1: u8, opc2: u8, crn: u8, crm: u8 },
    MCR2 { rt: Reg, coproc: u8, opc1: u8, opc2: u8, crn: u8, crm: u8 },
    LDC_imm { coproc: u8, imm32: u32, crd: u8, rn: Reg },
    LDC2_imm { coproc: u8, imm32: u32, crd: u8, rn: Reg },
    UDIV { rd: Reg, rn: Reg, rm: Reg },
    UMLAL { rdlo: Reg, rdhi: Reg, rn: Reg, rm: Reg },
    SMLAL { rdlo: Reg, rdhi: Reg, rn: Reg, rm: Reg },
}

/// Whether an instruction has a 32-bit encoding.
pub open spec fn is_thumb32(i: Instruction) -> bool {
    match i {
        Instruction::ADD_imm { thumb32, .. } => thumb32,
        Instruction::CMP_imm { thumb32, .. } => thumb32,
        Instruction::CMP_reg { thumb32, .. } => thumb32,
        Instruction::LDR_imm { thumb32, .. } => thumb32,
        Instruction::LDR_lit { thumb32, .. } => thumb32,
        Instruction::PUSH { thumb32, .. } => thumb32,
        Instruction::STR_imm { thumb32, .. } => thumb32,
        Instruction::SUB_imm { thumb32, .. } => thumb32,
        Instruction::SUB_reg { thumb32, .. } => thumb32,
        Instruction::UDF { thumb32, .. } => thumb32,
        Instruction::BL { .. } | Instruction::MRS { .. } | Instruction::MSR_reg { .. }
        | Instruction::DMB | Instruction::DSB | Instruction::ISB | Instruction::TBB { .. }
        | Instruction::MCR { .. } | Instruction::MCR2 { .. } | Instruction::LDC_imm { .. }
        | Instruction::LDC2_imm { .. } | Instruction::UDIV { .. } | Instruction::UMLAL { .. }
        | Instruction::SMLAL { .. } => true,
        _ => false,
    }
}

impl Instruction {
    /// Whether the instruction has a 32-bit encoding.
    pub fn thumb32(&self) -> (r: bool)
        ensures
            r == is_thumb32(*self),
    {
        match *self {
            Instruction::ADD_imm { thumb32, .. } => thumb32,
            Instruction::CMP_imm { thumb32, .. } => thumb32,
            Instruction::CMP_reg { thumb32, .. } => thumb32,
            Instruction::LDR_imm { thumb32, .. } => thumb32,
            Instruction::LDR_lit { thumb32, .. } => thumb32,
            Instruction::PUSH { thumb32, .. } => thumb32,
            Instruction::STR_imm { thumb32, .. } => thumb32,
            Instruction::SUB_imm { thumb32, .. } => thumb32,
            Instruction::SUB_reg { thumb32, .. } => thumb32,
            Instruction::UDF { thumb32, .. } => thumb32,
            Instruction::BL { .. } | Instruction::MRS { .. } | Instruction::MSR_reg { .. }
            | Instruction::DMB | Instruction::DSB | Instruction::ISB | Instruction::TBB { .. }
            | Instruction::MCR { .. } | Instruction::MCR2 { .. } | Instruction::LDC_imm { .. }
            | Instruction::LDC2_imm { .. } | Instruction::UDIV { .. } | Instruction::UMLAL { .. }
            | Instruction::SMLAL { .. } => true,
            _ => false,
        }
    }
}

} // verus!
