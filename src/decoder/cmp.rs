//! The CMP encodings.

use crate::bits::{field, Bits};
use crate::instruction::{Instruction, SRType};
use crate::operation::{
    decode_imm_shift, decode_imm_shift_spec, thumb_expand_imm, thumb_expand_imm_spec,
};
use crate::register::{reg_of, Reg};
use vstd::arithmetic::power2::lemma2_to64;
use vstd::prelude::*;

verus! {

/// CMP (immediate), encoding T1: `Rn` in bits 8..11, `imm8` in bits 0..8.
#[allow(non_snake_case)]
pub fn decode_CMP_imm_t1(opcode: u16) -> (r: Instruction)
    ensures
        r == (Instruction::CMP_imm {
            rn: reg_of(field(opcode as nat, 8, 3)),
            imm32: field(opcode as nat, 0, 8) as u32,
            thumb32: false,
        }),
{
    proof {
        lemma2_to64();
    }
    Instruction::CMP_imm {
        rn: Reg::from(opcode.get_bits(8..11) as u8),
        imm32: opcode.get_bits(0..8) as u32,
        thumb32: false,
    }
}

/// CMP (immediate), encoding T2: `Rn` in bits 16..20 and the modified
/// immediate `i:imm3:imm8` from bit 26, bits 12..15 and bits 0..8.
#[allow(non_snake_case)]
pub fn decode_CMP_imm_t2(opcode: u32) -> (r: Instruction)
    ensures
        r == (Instruction::CMP_imm {
            rn: reg_of(field(opcode as nat, 16, 4)),
            imm32: thumb_expand_imm_spec(
                (field(opcode as nat, 26, 1) * 0x800 + field(opcode as nat, 12, 3) * 0x100
                    + field(opcode as nat, 0, 8)) as u32,
            ),
            thumb32: true,
        }),
{
    proof {
        lemma2_to64();
    }
    let rn: u8 = opcode.get_bits(16..20) as u8;
    let imm3: u32 = opcode.get_bits(12..15);
    let imm8: u32 = opcode.get_bits(0..8);
    let i: u32 = if opcode.get_bit(26) { 1 } else { 0 };
    let imm12: u32 = i * 0x800 + imm3 * 0x100 + imm8;
    Instruction::CMP_imm { rn: Reg::from(rn), imm32: thumb_expand_imm(imm12), thumb32: true }
}

/// CMP (register), encoding T1: `Rn` in bits 0..3, `Rm` in bits 3..6.
#[allow(non_snake_case)]
pub fn decode_CMP_reg_t1(opcode: u16) -> (r: Instruction)
    ensures
        r == (Instruction::CMP_reg {
            rn: reg_of(field(opcode as nat, 0, 3)),
            rm: reg_of(field(opcode as nat, 3, 3)),
            shift_t: SRType::LSL,
            shift_n: 0,
            thumb32: false,
        }),
{
    proof {
        lemma2_to64();
    }
    Instruction::CMP_reg {
        rn: Reg::from(opcode.get_bits(0..3) as u8),
        rm: Reg::from(opcode.get_bits(3..6) as u8),
        shift_t: SRType::LSL,
        shift_n: 0,
        thumb32: false,
    }
}

/// CMP (register), encoding T2: `Rn` is bit 7 over bits 0..3, `Rm` in bits 3..7.
#[allow(non_snake_case)]
pub fn decode_CMP_reg_t2(opcode: u16) -> (r: Instruction)
    ensures
        r == (Instruction::CMP_reg {
            rn: reg_of(field(opcode as nat, 7, 1) * 8 + field(opcode as nat, 0, 3)),
            rm: reg_of(field(opcode as nat, 3, 4)),
            shift_t: SRType::LSL,
            shift_n: 0,
            thumb32: false,
        }),
{
    proof {
        lemma2_to64();
    }
    let n_high: u8 = if opcode.get_bit(7) { 8 } else { 0 };
    Instruction::CMP_reg {
        rn: Reg::from(n_high + opcode.get_bits(0..3) as u8),
        rm: Reg::from(opcode.get_bits(3..7) as u8),
        shift_t: SRType::LSL,
        shift_n: 0,
        thumb32: false,
    }
}

/// CMP (register), encoding T3: `Rn` in bits 16..20, `Rm` in bits 0..4 and
/// the immediate shift of type bits 4..6 by `imm3:imm2` (bits 12..15, 6..8).
#[allow(non_snake_case)]
pub fn decode_CMP_reg_t3(opcode: u32) -> (r: Instruction)
    ensures
        r == (Instruction::CMP_reg {
            rn: reg_of(field(opcode as nat, 16, 4)),
            rm: reg_of(field(opcode as nat, 0, 4)),
            shift_t: decode_imm_shift_spec(
                field(opcode as nat, 4, 2) as u8,
                (field(opcode as nat, 12, 3) * 4 + field(opcode as nat, 6, 2)) as u8,
            ).0,
            shift_n: decode_imm_shift_spec(
                field(opcode as nat, 4, 2) as u8,
                (field(opcode as nat, 12, 3) * 4 + field(opcode as nat, 6, 2)) as u8,
            ).1,
            thumb32: true,
        }),
{
    proof {
        lemma2_to64();
    }
    let imm3: u8 = opcode.get_bits(12..15) as u8;
    let imm2: u8 = opcode.get_bits(6..8) as u8;
    let type_: u8 = opcode.get_bits(4..6) as u8;
    let (shift_t, shift_n) = decode_imm_shift(type_, imm3 * 4 + imm2);
    Instruction::CMP_reg {
        rn: Reg::from(opcode.get_bits(16..20)),
        rm: Reg::from(opcode.get_bits(0..4)),
        shift_t: shift_t,
        shift_n: shift_n,
        thumb32: true,
    }
}

} // verus!
