use zmu_cortex_m::bus::{Bus, Ram};
use zmu_cortex_m::condition::Condition;
use zmu_cortex_m::cpu::Core;
use zmu_cortex_m::exception::Exception;
use zmu_cortex_m::executor::{execute, step, ExecuteResult};
use zmu_cortex_m::fault::Fault;
use zmu_cortex_m::instruction::{Instruction, SRType};
use zmu_cortex_m::register::{Reg, RegSet};
use zmu_cortex_m::semihosting::{
    SemihostHandler, SemihostingCommand, SemihostingResponse, SYS_WRITE0,
};

struct Recorder {
    written: Vec<u8>,
    calls: u32,
}

impl SemihostHandler for Recorder {
    fn handle(&mut self, command: &SemihostingCommand) -> SemihostingResponse {
        self.calls += 1;
        match command {
            SemihostingCommand::SysWrite0 { data } => {
                self.written.extend_from_slice(data);
                SemihostingResponse::Done { r0: 0 }
            }
            _ => SemihostingResponse::Unsupported,
        }
    }
}

fn recorder() -> Recorder {
    Recorder { written: Vec::new(), calls: 0 }
}

fn core_at(pc: u32) -> Core<Ram> {
    Core::new(Ram::new(), 0x2000_1000, pc)
}

#[test]
fn adds_sets_all_flags() {
    let mut core = core_at(0x100);
    let mut h = recorder();
    core.set_r(&Reg::R0, 0xFFFF_FFFF);
    core.set_r(&Reg::R1, 1);
    let r = step(
        &mut core,
        &Instruction::ADD_reg { rd: Reg::R2, rn: Reg::R0, rm: Reg::R1, setflags: true },
        &mut h,
    );
    assert_eq!(r, ExecuteResult::Taken { cycles: 1 });
    assert_eq!(core.get_r(&Reg::R2), 0);
    assert!(!core.psr.n);
    assert!(core.psr.z);
    assert!(core.psr.c);
    assert!(!core.psr.v);
    assert_eq!(core.pc, 0x102);
}

#[test]
fn push_pop_round_trip() {
    let mut core = core_at(0x200);
    let mut h = recorder();
    core.set_r(&Reg::R4, 0xAA);
    core.set_r(&Reg::R5, 0xBB);
    core.set_r(&Reg::LR, 0x1235);
    let push = Instruction::PUSH {
        registers: RegSet { bits: (1 << 4) | (1 << 5) | (1 << 14) },
        thumb32: false,
    };
    assert_eq!(execute(&mut core, &push, &mut h), ExecuteResult::Taken { cycles: 4 });
    assert_eq!(core.get_r(&Reg::SP), 0x2000_1000 - 12);
    assert_eq!(core.bus.read32(0x2000_1000 - 12), 0xAA);
    assert_eq!(core.bus.read32(0x2000_1000 - 4), 0x1235);
    core.set_r(&Reg::R4, 0);
    core.set_r(&Reg::R5, 0);
    core.set_r(&Reg::LR, 0);
    let pop = Instruction::POP { registers: RegSet { bits: (1 << 4) | (1 << 5) | (1 << 15) } };
    assert_eq!(execute(&mut core, &pop, &mut h), ExecuteResult::Branched { cycles: 7 });
    assert_eq!(core.get_r(&Reg::R4), 0xAA);
    assert_eq!(core.get_r(&Reg::R5), 0xBB);
    assert_eq!(core.pc, 0x1234);
    assert_eq!(core.get_r(&Reg::SP), 0x2000_1000);
}

#[test]
fn stm_ldm_round_trip() {
    let mut core = core_at(0x200);
    let mut h = recorder();
    core.set_r(&Reg::R0, 0x2000_0000);
    core.set_r(&Reg::R1, 11);
    core.set_r(&Reg::R2, 22);
    let regs = RegSet { bits: (1 << 1) | (1 << 2) };
    let stm = Instruction::STM { registers: regs, rn: Reg::R0, wback: false };
    assert_eq!(execute(&mut core, &stm, &mut h), ExecuteResult::Taken { cycles: 3 });
    core.set_r(&Reg::R1, 0);
    core.set_r(&Reg::R2, 0);
    let ldm = Instruction::LDM { registers: regs, rn: Reg::R0 };
    assert_eq!(execute(&mut core, &ldm, &mut h), ExecuteResult::Taken { cycles: 3 });
    assert_eq!(core.get_r(&Reg::R1), 11);
    assert_eq!(core.get_r(&Reg::R2), 22);
    assert_eq!(core.get_r(&Reg::R0), 0x2000_0008);
}

#[test]
fn pop_into_arm_state_faults() {
    let mut core = core_at(0x200);
    let mut h = recorder();
    core.bus.write32(0x2000_1000, 0x1234);
    core.set_r(&Reg::R4, 7);
    let pop = Instruction::POP { registers: RegSet { bits: (1 << 4) | (1 << 15) } };
    assert_eq!(
        execute(&mut core, &pop, &mut h),
        ExecuteResult::Fault { fault: Fault::InvalidState }
    );
    assert_eq!(core.get_r(&Reg::R4), 7);
    assert_eq!(core.get_r(&Reg::SP), 0x2000_1000);
}

#[test]
fn branch_and_link() {
    let mut core = core_at(0x1000);
    let mut h = recorder();
    let r = step(&mut core, &Instruction::BL { imm32: 0x40 }, &mut h);
    assert_eq!(r, ExecuteResult::Branched { cycles: 4 });
    assert_eq!(core.pc, 0x1044);
    assert_eq!(core.get_r(&Reg::LR), 0x1005);
}

#[test]
fn if_then_else_block() {
    let mut core = core_at(0x300);
    let mut h = recorder();
    core.psr.z = true;
    step(&mut core, &Instruction::IT { firstcond: Condition::EQ, mask: 0b1100 }, &mut h);
    let r1 = step(
        &mut core,
        &Instruction::MOV_imm { rd: Reg::R0, imm32: 1, setflags: false },
        &mut h,
    );
    let r2 = step(
        &mut core,
        &Instruction::MOV_imm { rd: Reg::R0, imm32: 2, setflags: false },
        &mut h,
    );
    assert_eq!(r1, ExecuteResult::Taken { cycles: 1 });
    assert_eq!(r2, ExecuteResult::NotTaken);
    assert_eq!(core.get_r(&Reg::R0), 1);
    assert_eq!(core.psr.itstate, 0);
    assert_eq!(core.pc, 0x306);
}

#[test]
fn single_if_then_clears_state() {
    for z in [true, false] {
        let mut core = core_at(0x300);
        let mut h = recorder();
        core.psr.z = z;
        step(&mut core, &Instruction::IT { firstcond: Condition::EQ, mask: 0b1000 }, &mut h);
        let r = step(
            &mut core,
            &Instruction::MOV_imm { rd: Reg::R3, imm32: 9, setflags: false },
            &mut h,
        );
        if z {
            assert_eq!(r, ExecuteResult::Taken { cycles: 1 });
            assert_eq!(core.get_r(&Reg::R3), 9);
        } else {
            assert_eq!(r, ExecuteResult::NotTaken);
            assert_eq!(core.get_r(&Reg::R3), 0);
        }
        assert_eq!(core.psr.itstate, 0);
    }
}

#[test]
fn failed_condition_changes_nothing() {
    let mut core = core_at(0x300);
    let mut h = recorder();
    core.psr.z = true;
    core.psr.itstate = 0x18; // NE, one instruction left
    core.set_r(&Reg::R1, 5);
    let r = execute(
        &mut core,
        &Instruction::ADD_imm { rd: Reg::R1, rn: Reg::R1, imm32: 3, setflags: true, thumb32: false },
        &mut h,
    );
    assert_eq!(r, ExecuteResult::NotTaken);
    assert_eq!(core.get_r(&Reg::R1), 5);
    assert!(core.psr.z);
    assert_eq!(core.pc, 0x300);
}

#[test]
fn table_branch_byte() {
    let mut core = core_at(0x100);
    let mut h = recorder();
    core.bus.write8(0x104, 0x04);
    core.set_r(&Reg::R0, 0);
    let r = step(&mut core, &Instruction::TBB { rn: Reg::PC, rm: Reg::R0 }, &mut h);
    assert_eq!(r, ExecuteResult::Branched { cycles: 1 });
    assert_eq!(core.pc, 0x10C);
}

#[test]
fn semihosting_write0() {
    let mut core = core_at(0x100);
    let mut h = recorder();
    core.bus.write8(0x2000_0000, b'O');
    core.bus.write8(0x2000_0001, b'K');
    core.bus.write8(0x2000_0002, 0);
    core.set_r(&Reg::R0, SYS_WRITE0);
    core.set_r(&Reg::R1, 0x2000_0000);
    let r = execute(&mut core, &Instruction::BKPT { imm32: 0xAB }, &mut h);
    assert_eq!(r, ExecuteResult::Taken { cycles: 1 });
    assert_eq!(h.written, b"OK".to_vec());
    assert_eq!(h.calls, 1);
    assert_eq!(core.get_r(&Reg::R0), 0);
}

#[test]
fn cmp_matches_subs_flags() {
    for &(x, y) in &[(5u32, 7u32), (7, 5), (0x8000_0000, 1), (3, 3)] {
        let mut a = core_at(0x100);
        let mut b = core_at(0x100);
        let mut h = recorder();
        for c in [&mut a, &mut b] {
            c.set_r(&Reg::R0, x);
            c.set_r(&Reg::R1, y);
        }
        execute(
            &mut a,
            &Instruction::CMP_reg {
                rn: Reg::R0,
                rm: Reg::R1,
                shift_t: SRType::LSL,
                shift_n: 0,
                thumb32: false,
            },
            &mut h,
        );
        execute(
            &mut b,
            &Instruction::SUB_reg {
                rd: Reg::R2,
                rn: Reg::R0,
                rm: Reg::R1,
                setflags: true,
                shift_t: SRType::LSL,
                shift_n: 0,
                thumb32: false,
            },
            &mut h,
        );
        assert_eq!(a.psr, b.psr);
        assert_eq!(b.get_r(&Reg::R2), x.wrapping_sub(y));
    }
}

#[test]
fn add_zero_flags() {
    for &v in &[0u32, 1, 0x8000_0000, 0xFFFF_FFFF] {
        let mut core = core_at(0x100);
        let mut h = recorder();
        core.psr.c = true;
        core.psr.v = true;
        core.set_r(&Reg::R0, v);
        execute(
            &mut core,
            &Instruction::ADD_imm { rd: Reg::R1, rn: Reg::R0, imm32: 0, setflags: true, thumb32: false },
            &mut h,
        );
        assert_eq!(core.psr.z, v == 0);
        assert_eq!(core.psr.n, v >= 0x8000_0000);
        assert!(!core.psr.c);
        assert!(!core.psr.v);
    }
}

#[test]
fn thirty_two_bit_instruction_advances_four() {
    let mut core = core_at(0x100);
    let mut h = recorder();
    let r = step(
        &mut core,
        &Instruction::ADD_imm { rd: Reg::R1, rn: Reg::R0, imm32: 4, setflags: false, thumb32: true },
        &mut h,
    );
    assert_eq!(r, ExecuteResult::Taken { cycles: 1 });
    assert_eq!(core.pc, 0x104);
    assert_eq!(core.get_r(&Reg::R1), 4);
}

#[test]
fn undefined_instruction_faults() {
    let mut core = core_at(0x100);
    let mut h = recorder();
    let r = execute(&mut core, &Instruction::UDF { imm32: 0, opcode: 0xDE00, thumb32: false }, &mut h);
    assert_eq!(r, ExecuteResult::Fault { fault: Fault::UndefinedInstruction });
    let r = execute(&mut core, &Instruction::UDIV { rd: Reg::R0, rn: Reg::R1, rm: Reg::R2 }, &mut h);
    assert_eq!(r, ExecuteResult::Fault { fault: Fault::UndefinedInstruction });
    assert_eq!(core.pc, 0x100);
}

#[test]
fn bx_to_arm_state_faults() {
    let mut core = core_at(0x100);
    let mut h = recorder();
    core.set_r(&Reg::R3, 0x2000);
    let r = execute(&mut core, &Instruction::BX { rm: Reg::R3 }, &mut h);
    assert_eq!(r, ExecuteResult::Fault { fault: Fault::InvalidState });
    core.set_r(&Reg::R3, 0x2001);
    let r = execute(&mut core, &Instruction::BX { rm: Reg::R3 }, &mut h);
    assert_eq!(r, ExecuteResult::Branched { cycles: 3 });
    assert_eq!(core.pc, 0x2000);
}

#[test]
fn failed_it_condition_skips_every_kind() {
    let mut core = core_at(0x300);
    let mut h = recorder();
    core.psr.z = true;
    core.psr.itstate = 0x18; // NE, one instruction left
    assert_eq!(
        execute(&mut core, &Instruction::CPS { im: zmu_cortex_m::instruction::CpsEffect::ID }, &mut h),
        ExecuteResult::NotTaken
    );
    assert!(!core.primask);
    assert_eq!(execute(&mut core, &Instruction::NOP, &mut h), ExecuteResult::NotTaken);
    assert_eq!(
        execute(&mut core, &Instruction::BKPT { imm32: 0xAB }, &mut h),
        ExecuteResult::NotTaken
    );
    assert_eq!(h.calls, 0);
    assert_eq!(
        execute(&mut core, &Instruction::UDIV { rd: Reg::R0, rn: Reg::R1, rm: Reg::R2 }, &mut h),
        ExecuteResult::NotTaken
    );
}

#[test]
fn svc_and_breakpoint_raise_exceptions() {
    let mut core = core_at(0x300);
    let mut h = recorder();
    assert_eq!(
        execute(&mut core, &Instruction::SVC { imm32: 3 }, &mut h),
        ExecuteResult::Exception { exception: Exception::SVCall }
    );
    assert_eq!(
        step(&mut core, &Instruction::BKPT { imm32: 1 }, &mut h),
        ExecuteResult::Exception { exception: Exception::DebugMonitor }
    );
    assert_eq!(core.pc, 0x300);
    assert_eq!(h.calls, 0);
}

#[test]
fn unaligned_accesses_fault() {
    let mut core = core_at(0x300);
    let mut h = recorder();
    core.set_r(&Reg::R0, 0x2000_0002);
    core.set_r(&Reg::R1, 0x77);
    let r = execute(
        &mut core,
        &Instruction::LDR_imm {
            rt: Reg::R1,
            rn: Reg::R0,
            imm32: 0,
            index: true,
            add: true,
            wback: false,
            thumb32: false,
        },
        &mut h,
    );
    assert_eq!(r, ExecuteResult::Fault { fault: Fault::UnalignedAccess });
    assert_eq!(core.get_r(&Reg::R1), 0x77);
    let r = execute(&mut core, &Instruction::STRH_imm { rt: Reg::R1, rn: Reg::R0, imm32: 1 }, &mut h);
    assert_eq!(r, ExecuteResult::Fault { fault: Fault::UnalignedAccess });
    assert_eq!(core.bus.read8(0x2000_0003), 0);
    let r = execute(&mut core, &Instruction::STRH_imm { rt: Reg::R1, rn: Reg::R0, imm32: 0 }, &mut h);
    assert_eq!(r, ExecuteResult::Taken { cycles: 2 });
    assert_eq!(core.bus.read16(0x2000_0002), 0x77);
}

#[test]
fn literal_load_into_pc_branches() {
    let mut core = core_at(0x100);
    let mut h = recorder();
    core.bus.write32(0x108, 0x0000_4001);
    let r = step(&mut core, &Instruction::LDR_lit { rt: Reg::PC, imm32: 4, thumb32: false }, &mut h);
    assert_eq!(r, ExecuteResult::Branched { cycles: 2 });
    assert_eq!(core.pc, 0x4000);
}

#[test]
fn semihosting_write_reads_argument_block() {
    let mut core = core_at(0x100);
    core.bus.write32(0x2000_0100, 1);
    core.bus.write32(0x2000_0104, 0x2000_0200);
    core.bus.write32(0x2000_0108, 3);
    core.bus.write8(0x2000_0200, b'a');
    core.bus.write8(0x2000_0201, b'b');
    core.bus.write8(0x2000_0202, b'c');
    match zmu_cortex_m::semihosting::decode_semihostcmd(
        zmu_cortex_m::semihosting::SYS_WRITE,
        0x2000_0100,
        &core,
    ) {
        SemihostingCommand::SysWrite { handle, data } => {
            assert_eq!(handle, 1);
            assert_eq!(data, b"abc".to_vec());
        }
        _ => panic!("not a write"),
    }
}
