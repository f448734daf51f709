use zmu_cortex_m::decoder::cmp::{
    decode_CMP_imm_t1, decode_CMP_imm_t2, decode_CMP_reg_t1, decode_CMP_reg_t2,
    decode_CMP_reg_t3,
};
use zmu_cortex_m::decoder::tbb::decode_TBB_t1;
use zmu_cortex_m::instruction::{Instruction, SRType};
use zmu_cortex_m::register::Reg;

#[test]
fn cmp_immediate_t1() {
    // CMP r2, #5
    assert_eq!(
        decode_CMP_imm_t1(0x2A05),
        Instruction::CMP_imm { rn: Reg::R2, imm32: 5, thumb32: false }
    );
}

#[test]
fn cmp_immediate_t2() {
    // CMP.W r3, #0x00AB00AB
    assert_eq!(
        decode_CMP_imm_t2(0xF1B3_1FAB),
        Instruction::CMP_imm { rn: Reg::R3, imm32: 0x00AB_00AB, thumb32: true }
    );
}

#[test]
fn cmp_register_forms() {
    // CMP r1, r2
    assert_eq!(
        decode_CMP_reg_t1(0x4291),
        Instruction::CMP_reg {
            rn: Reg::R1,
            rm: Reg::R2,
            shift_t: SRType::LSL,
            shift_n: 0,
            thumb32: false
        }
    );
    // CMP r8, lr
    assert_eq!(
        decode_CMP_reg_t2(0x45F0),
        Instruction::CMP_reg {
            rn: Reg::R8,
            rm: Reg::LR,
            shift_t: SRType::LSL,
            shift_n: 0,
            thumb32: false
        }
    );
    // CMP.W r4, r5, LSR #3
    assert_eq!(
        decode_CMP_reg_t3(0xEBB4_0FD5),
        Instruction::CMP_reg {
            rn: Reg::R4,
            rm: Reg::R5,
            shift_t: SRType::LSR,
            shift_n: 3,
            thumb32: true
        }
    );
}

#[test]
fn tbb_registers() {
    // TBB [pc, r0]
    assert_eq!(decode_TBB_t1(0xE8DF_F000), Instruction::TBB { rn: Reg::PC, rm: Reg::R0 });
}
