//! Execution of one decoded instruction.

use crate::bus::{addr_add, byte_at, half_at, store_half, store_word, word_at, Bus};
use crate::condition::{condition_code, condition_holds};
use crate::cpu::{clear_bit0, it_advance, Core, CoreState};
use crate::exception::Exception;
use crate::fault::Fault;
use crate::instruction::{is_thumb32, CpsEffect, Instruction, SRType};
use crate::operation::{
    add_with_carry, add_with_carry_spec, decode_imm_shift, decode_imm_shift_spec, shift_c,
    shift_c_spec, sign_extend, sign_extend_spec,
};
use crate::register::{count_from, in_set, reg_index, reg_of, Psr, Reg, SpecialReg};
use crate::semihosting::{
    decode_semihostcmd, semihost_return, semihost_return_spec, SemihostHandler,
    SemihostingResponse,
};
use crate::bits::Bits;
use vstd::prelude::*;

verus! {

/// What became of an instruction.
#[derive(PartialEq, Eq, Structural, Debug, Copy, Clone)]
pub enum ExecuteResult {
    /// The instruction raised a fault; nothing was changed.
    Fault { fault: Fault },
    /// The instruction was carried out and did not branch.
    Taken { cycles: u64 },
    /// The condition failed; nothing was changed.
    NotTaken,
    /// The instruction branched; `pc` holds the target.
    Branched { cycles: u64 },
    /// The instruction raises an exception (SVCall for SVC, DebugMonitor for
    /// a breakpoint); nothing was changed, and the outer loop enters it.
    Exception { exception: Exception },
}

/// `a - k` on the 32-bit address space.
pub open spec fn addr_sub(a: u32, k: u32) -> u32 {
    ((a as int - k as int) % 0x1_0000_0000) as u32
}

/// `a` plus a signed offset, on the 32-bit address space.
pub open spec fn addr_offset(a: u32, off: i32) -> u32 {
    ((a as int + off as int) % 0x1_0000_0000) as u32
}

/// `v` rounded down to a multiple of four.
pub open spec fn align4(v: u32) -> u32 {
    (v - v % 4) as u32
}

/// N and Z from a result.
pub open spec fn nz(p: Psr, result: u32) -> Psr {
    Psr { n: result >= 0x8000_0000, z: result == 0, ..p }
}

/// N, Z and C from a result and a carry.
pub open spec fn nzc(p: Psr, result: u32, c: bool) -> Psr {
    Psr { c: c, ..nz(p, result) }
}

/// N, Z, C and V from a result, a carry and an overflow.
pub open spec fn nzcv(p: Psr, result: u32, c: bool, v: bool) -> Psr {
    Psr { c: c, v: v, ..nz(p, result) }
}

/// `rd` receives `result`; with `setflags`, so do N and Z.
pub open spec fn write_nz(s: CoreState, rd: Reg, result: u32, setflags: bool) -> CoreState {
    let s1 = s.set_r(rd, result);
    if setflags {
        s1.with_psr(nz(s.psr, result))
    } else {
        s1
    }
}

/// `rd` receives `result`; with `setflags`, N, Z and C are set too.
pub open spec fn write_nzc(s: CoreState, rd: Reg, result: u32, c: bool, setflags: bool) -> CoreState {
    let s1 = s.set_r(rd, result);
    if setflags {
        s1.with_psr(nzc(s.psr, result, c))
    } else {
        s1
    }
}

/// `rd` receives the adder's result; with `setflags`, all four flags are set.
pub open spec fn write_nzcv(s: CoreState, rd: Reg, sum: (u32, bool, bool), setflags: bool) -> CoreState {
    let s1 = s.set_r(rd, sum.0);
    if setflags {
        s1.with_psr(nzcv(s.psr, sum.0, sum.1, sum.2))
    } else {
        s1
    }
}

/// The flags of a comparison that adds with carry.
pub open spec fn compare(s: CoreState, sum: (u32, bool, bool)) -> CoreState {
    s.with_psr(nzcv(s.psr, sum.0, sum.1, sum.2))
}

/// The state with new memory.
pub open spec fn with_mem(s: CoreState, m: Map<u32, u8>) -> CoreState {
    CoreState { mem: m, ..s }
}

/// The memory after storing, from address `addr` up, the registers of
/// `bits` numbered `i` and above, in ascending order, as they stand in `s`.
pub open spec fn store_regs(s: CoreState, bits: u16, i: nat, m: Map<u32, u8>, addr: u32) -> Map<
    u32,
    u8,
>
    decreases 16 - i,
{
    if i >= 16 {
        m
    } else if in_set(bits, i) {
        store_regs(s, bits, i + 1, store_word(m, addr, s.get_r(reg_of(i))), addr_add(addr, 4))
    } else {
        store_regs(s, bits, i + 1, m, addr)
    }
}

/// The state after loading, from address `addr` up, the registers of `bits`
/// numbered `i` and above, in ascending order; a load into `pc` clears bit 0.
pub open spec fn load_regs(s: CoreState, bits: u16, i: nat, addr: u32) -> CoreState
    decreases 16 - i,
{
    if i >= 16 {
        s
    } else if in_set(bits, i) {
        load_regs(s.set_r(reg_of(i), word_at(s.mem, addr)), bits, i + 1, addr_add(addr, 4))
    } else {
        load_regs(s, bits, i + 1, addr)
    }
}

/// Where a load of the registers `bits` from `start` takes `pc` from.
pub open spec fn pc_slot(bits: u16, start: u32) -> u32 {
    addr_add(start, (4 * (count_from(bits, 0) - 1)) as nat)
}

/// Whether a load of the registers `bits` from `start` keeps Thumb state.
pub open spec fn pc_load_ok(s: CoreState, bits: u16, start: u32) -> bool {
    !in_set(bits, 15) || word_at(s.mem, pc_slot(bits, start)) % 2 == 1
}

/// Whether the instruction is predicated by the IT state: all are but B,
/// which carries a condition of its own.
pub open spec fn checks_condition(i: Instruction) -> bool {
    !(i is B)
}

/// The value MRS reads from a special register, if it is one the core has.
pub open spec fn special_read(s: CoreState, reg: SpecialReg) -> Option<u32> {
    match reg {
        SpecialReg::IPSR => Some(s.psr.exception_number as u32),
        SpecialReg::MSP => Some(s.msp),
        SpecialReg::PSP => Some(s.psp),
        SpecialReg::PRIMASK => Some(if s.primask { 1u32 } else { 0u32 }),
        SpecialReg::CONTROL => Some(
            ((if s.control.spsel { 2u32 } else { 0u32 }) + (if s.control.npriv { 1u32 } else { 0u32 })) as u32,
        ),
        _ => None,
    }
}

/// The state after MSR writes `v` to a special register, if it is one the
/// core has. Unprivileged Thread mode writes PRIMASK only; other writes are
/// ignored there.
pub open spec fn special_write(s: CoreState, reg: SpecialReg, v: u32) -> Option<CoreState> {
    match reg {
        SpecialReg::MSP => Some(if s.unprivileged() { s } else { CoreState { msp: v, ..s } }),
        SpecialReg::PSP => Some(if s.unprivileged() { s } else { CoreState { psp: v, ..s } }),
        SpecialReg::PRIMASK => Some(CoreState { primask: v % 2 == 1, ..s }),
        SpecialReg::CONTROL => Some(
            if s.unprivileged() {
                s
            } else {
                CoreState {
                    control: crate::register::Control { spsel: (v / 2) % 2 == 1, npriv: v % 2 == 1 },
                    ..s
                }
            },
        ),
        _ => None,
    }
}

/// `v` with its four bytes in reverse order.
pub open spec fn rev_spec(v: u32) -> u32 {
    (v % 0x100 * 0x100_0000 + (v / 0x100) % 0x100 * 0x1_0000 + (v / 0x1_0000) % 0x100 * 0x100 + v
        / 0x100_0000) as u32
}

/// `v` with the two bytes of each halfword swapped.
pub open spec fn rev16_spec(v: u32) -> u32 {
    ((v / 0x100) % 0x100 + v % 0x100 * 0x100 + (v / 0x100_0000) * 0x1_0000 + (v / 0x1_0000)
        % 0x100 * 0x100_0000) as u32
}

/// The low halfword of `v` with its bytes swapped, sign-extended.
pub open spec fn revsh_spec(v: u32) -> u32 {
    (sign_extend_spec(v % 0x100, 7, 24) * 0x100 + (v / 0x100) % 0x100) as u32
}

/// The effect of loading `data` into `rt` on `s1`: a load into `pc`
/// branches, and faults where bit 0 would leave Thumb state.
pub open spec fn load_into(s: CoreState, s1: CoreState, rt: Reg, data: u32, cycles: u64) -> (
    CoreState,
    ExecuteResult,
) {
    if rt == Reg::PC {
        if data % 2 == 0 {
            (s, ExecuteResult::Fault { fault: Fault::InvalidState })
        } else {
            (s1.branch_to(data), ExecuteResult::Branched { cycles: cycles })
        }
    } else {
        (s1.set_r(rt, data), ExecuteResult::Taken { cycles: cycles })
    }
}

/// The outcome of a misaligned access: a fault, with nothing changed.
pub open spec fn unaligned(s: CoreState) -> (CoreState, ExecuteResult) {
    (s, ExecuteResult::Fault { fault: Fault::UnalignedAccess })
}

/// The new state and the outcome of executing `i` in state `s`. A semihosting
/// breakpoint is not covered: its outcome depends on the host.
pub open spec fn execute_spec(s: CoreState, i: Instruction) -> (CoreState, ExecuteResult) {
    let taken1 = ExecuteResult::Taken { cycles: 1 };
    let taken2 = ExecuteResult::Taken { cycles: 2 };
    let c = s.psr.c;
    if checks_condition(i) && !s.condition_passed() {
        (s, ExecuteResult::NotTaken)
    } else {
        match i {
            Instruction::ADC_reg { rd, rn, rm, setflags } => (
                write_nzcv(s, rd, add_with_carry_spec(s.get_r(rn), s.get_r(rm), c), setflags),
                taken1,
            ),
            Instruction::ADD_imm { rd, rn, imm32, setflags, .. } => (
                write_nzcv(s, rd, add_with_carry_spec(s.get_r(rn), imm32, false), setflags),
                taken1,
            ),
            Instruction::ADD_reg { rd, rn, rm, setflags } => {
                let sum = add_with_carry_spec(s.get_r(rn), s.get_r(rm), false);
                if rd == Reg::PC {
                    (s.branch_to(sum.0), ExecuteResult::Branched { cycles: 3 })
                } else {
                    (write_nzcv(s, rd, sum, setflags), taken1)
                }
            },
            Instruction::ADR { rd, imm32 } => (
                s.set_r(rd, addr_add(align4(s.get_r(Reg::PC)), imm32 as nat)),
                taken1,
            ),
            Instruction::AND_reg { rd, rn, rm, setflags } => (
                write_nz(s, rd, s.get_r(rn) & s.get_r(rm), setflags),
                taken1,
            ),
            Instruction::ASR_imm { rd, rm, imm5, setflags } => {
                let r = shift_c_spec(s.get_r(rm), SRType::ASR, decode_imm_shift_spec(2, imm5).1 as nat, c);
                (write_nzc(s, rd, r.0, r.1, setflags), taken1)
            },
            Instruction::ASR_reg { rd, rn, rm, setflags } => {
                let r = shift_c_spec(s.get_r(rn), SRType::ASR, (s.get_r(rm) % 0x100) as nat, c);
                (write_nzc(s, rd, r.0, r.1, setflags), taken1)
            },
            Instruction::B { cond, imm32 } => if condition_holds(condition_code(cond), s.psr) {
                (
                    s.branch_to(addr_offset(s.get_r(Reg::PC), imm32)),
                    ExecuteResult::Branched { cycles: 3 },
                )
            } else {
                (s, ExecuteResult::NotTaken)
            },
            Instruction::BIC_reg { rd, rn, rm, setflags } => (
                write_nz(s, rd, s.get_r(rn) & !s.get_r(rm), setflags),
                taken1,
            ),
            Instruction::BKPT { imm32 } => if imm32 == 0xAB {
                (s, taken1)
            } else {
                (s, ExecuteResult::Exception { exception: Exception::DebugMonitor })
            },
            Instruction::BL { imm32 } => {
                let pc = s.get_r(Reg::PC);
                (
                    s.set_r(Reg::LR, pc | 1).branch_to(addr_offset(pc, imm32)),
                    ExecuteResult::Branched { cycles: 4 },
                )
            },
            Instruction::BLX { rm } => {
                let target = s.get_r(rm);
                if target % 2 == 0 {
                    (s, ExecuteResult::Fault { fault: Fault::InvalidState })
                } else {
                    (
                        s.set_r(Reg::LR, clear_bit0(addr_add(s.pc, 2)) | 1).branch_to(target),
                        ExecuteResult::Branched { cycles: 3 },
                    )
                }
            },
            Instruction::BX { rm } => {
                let target = s.get_r(rm);
                if target % 2 == 0 {
                    (s, ExecuteResult::Fault { fault: Fault::InvalidState })
                } else {
                    (s.branch_to(target), ExecuteResult::Branched { cycles: 3 })
                }
            },
            Instruction::CBZ { rn, nonzero, imm32 } => if nonzero != (s.get_r(rn) == 0) {
                (
                    s.branch_to(addr_add(s.get_r(Reg::PC), imm32 as nat)),
                    ExecuteResult::Branched { cycles: 1 },
                )
            } else {
                (s, taken1)
            },
            Instruction::CMN_reg { rn, rm } => (
                compare(s, add_with_carry_spec(s.get_r(rn), s.get_r(rm), false)),
                taken1,
            ),
            Instruction::CMP_imm { rn, imm32, .. } => (
                compare(s, add_with_carry_spec(s.get_r(rn), !imm32, true)),
                taken1,
            ),
            Instruction::CMP_reg { rn, rm, shift_t, shift_n, .. } => {
                let shifted = shift_c_spec(s.get_r(rm), shift_t, shift_n as nat, c).0;
                (compare(s, add_with_carry_spec(s.get_r(rn), !shifted, true)), taken1)
            },
            Instruction::CPS { im } => (CoreState { primask: im == CpsEffect::ID, ..s }, taken1),
            Instruction::DMB | Instruction::DSB | Instruction::ISB => (
                s,
                ExecuteResult::Taken { cycles: 4 },
            ),
            Instruction::EOR_reg { rd, rn, rm, setflags } => (
                write_nz(s, rd, s.get_r(rn) ^ s.get_r(rm), setflags),
                taken1,
            ),
            Instruction::IT { firstcond, mask } => (
                s.with_psr(
                    Psr {
                        itstate: ((condition_code(firstcond) * 16 + mask) % 0x100) as u8,
                        ..s.psr
                    },
                ),
                ExecuteResult::Taken { cycles: 4 },
            ),
            Instruction::LDM { registers, rn } => {
                let bits = registers.bits;
                let count = count_from(bits, 0);
                let start = s.get_r(rn);
                if start % 4 != 0 {
                    unaligned(s)
                } else if !pc_load_ok(s, bits, start) {
                    (s, ExecuteResult::Fault { fault: Fault::InvalidState })
                } else {
                    let s1 = load_regs(s, bits, 0, start);
                    let s2 = if in_set(bits, reg_index(rn)) {
                        s1
                    } else {
                        s1.set_r(rn, addr_add(start, 4 * count))
                    };
                    if in_set(bits, 15) {
                        (s2, ExecuteResult::Branched { cycles: (1 + count) as u64 })
                    } else {
                        (s2, ExecuteResult::Taken { cycles: (1 + count) as u64 })
                    }
                }
            },
            Instruction::LDR_imm { rt, rn, imm32, index, add, wback, .. } => {
                let base = s.get_r(rn);
                let offset_address = if add {
                    addr_add(base, imm32 as nat)
                } else {
                    addr_sub(base, imm32)
                };
                let address = if index {
                    offset_address
                } else {
                    base
                };
                let s1 = if wback {
                    s.set_r(rn, offset_address)
                } else {
                    s
                };
                if address % 4 != 0 {
                    unaligned(s)
                } else {
                    load_into(s, s1, rt, word_at(s.mem, address), 1)
                }
            },
            Instruction::LDR_lit { rt, imm32, .. } => {
                let address = addr_add(align4(s.get_r(Reg::PC)), imm32 as nat);
                if address % 4 != 0 {
                    unaligned(s)
                } else {
                    load_into(s, s, rt, word_at(s.mem, address), 2)
                }
            },
            Instruction::LDR_reg { rt, rn, rm } => {
                let address = addr_add(s.get_r(rn), s.get_r(rm) as nat);
                if address % 4 != 0 {
                    unaligned(s)
                } else {
                    load_into(s, s, rt, word_at(s.mem, address), 2)
                }
            },
            Instruction::LDRB_imm { rt, rn, imm32 } => (
                s.set_r(rt, byte_at(s.mem, addr_add(s.get_r(rn), imm32 as nat)) as u32),
                taken2,
            ),
            Instruction::LDRB_reg { rt, rn, rm } => (
                s.set_r(rt, byte_at(s.mem, addr_add(s.get_r(rn), s.get_r(rm) as nat)) as u32),
                taken2,
            ),
            Instruction::LDRH_imm { rt, rn, imm32 } => {
                let address = addr_add(s.get_r(rn), imm32 as nat);
                if address % 2 != 0 {
                    unaligned(s)
                } else {
                    (s.set_r(rt, half_at(s.mem, address) as u32), taken2)
                }
            },
            Instruction::LDRH_reg { rt, rn, rm } => {
                let address = addr_add(s.get_r(rn), s.get_r(rm) as nat);
                if address % 2 != 0 {
                    unaligned(s)
                } else {
                    (s.set_r(rt, half_at(s.mem, address) as u32), taken2)
                }
            },
            Instruction::LDRSB_reg { rt, rn, rm } => {
                let data = byte_at(s.mem, addr_add(s.get_r(rn), s.get_r(rm) as nat));
                (s.set_r(rt, sign_extend_spec(data as u32, 7, 32) as u32), taken2)
            },
            Instruction::LDRSH_reg { rt, rn, rm } => {
                let address = addr_add(s.get_r(rn), s.get_r(rm) as nat);
                if address % 2 != 0 {
                    unaligned(s)
                } else {
                    let data = half_at(s.mem, address);
                    (s.set_r(rt, sign_extend_spec(data as u32, 15, 32) as u32), taken2)
                }
            },
            Instruction::LSL_imm { rd, rm, imm5, setflags } => {
                let r = shift_c_spec(s.get_r(rm), SRType::LSL, decode_imm_shift_spec(0, imm5).1 as nat, c);
                (write_nzc(s, rd, r.0, r.1, setflags), taken1)
            },
            Instruction::LSL_reg { rd, rn, rm, setflags } => {
                let r = shift_c_spec(s.get_r(rn), SRType::LSL, (s.get_r(rm) % 0x100) as nat, c);
                (write_nzc(s, rd, r.0, r.1, setflags), taken1)
            },
            Instruction::LSR_imm { rd, rm, imm5, setflags } => {
                let r = shift_c_spec(s.get_r(rm), SRType::LSR, decode_imm_shift_spec(1, imm5).1 as nat, c);
                (write_nzc(s, rd, r.0, r.1, setflags), taken1)
            },
            Instruction::LSR_reg { rd, rn, rm, setflags } => {
                let r = shift_c_spec(s.get_r(rn), SRType::LSR, (s.get_r(rm) % 0x100) as nat, c);
                (write_nzc(s, rd, r.0, r.1, setflags), taken1)
            },
            Instruction::MOV_imm { rd, imm32, setflags } => (write_nz(s, rd, imm32, setflags), taken1),
            Instruction::MOV_reg { rd, rm, setflags } => {
                let result = s.get_r(rm);
                if rd == Reg::PC {
                    (s.branch_to(result), ExecuteResult::Branched { cycles: 3 })
                } else {
                    (write_nz(s, rd, result, setflags), taken1)
                }
            },
            Instruction::MRS { rd, spec_reg } => match special_read(s, spec_reg) {
                Some(v) => (s.set_r(rd, v), ExecuteResult::Taken { cycles: 4 }),
                None => (s, ExecuteResult::Fault { fault: Fault::UndefinedInstruction }),
            },
            Instruction::MSR_reg { rn, spec_reg } => match special_write(s, spec_reg, s.get_r(rn)) {
                Some(s1) => (s1, ExecuteResult::Taken { cycles: 4 }),
                None => (s, ExecuteResult::Fault { fault: Fault::UndefinedInstruction }),
            },
            Instruction::MUL { rd, rn, rm, setflags } => (
                write_nz(s, rd, ((s.get_r(rn) as nat * s.get_r(rm) as nat) % 0x1_0000_0000) as u32, setflags),
                taken1,
            ),
            Instruction::MVN_imm { rd, imm32, setflags } => (write_nz(s, rd, !imm32, setflags), taken1),
            Instruction::MVN_reg { rd, rm, setflags } => (
                write_nz(s, rd, !s.get_r(rm), setflags),
                taken1,
            ),
            Instruction::ORR_imm { rd, rn, imm32, setflags } => (
                write_nz(s, rd, s.get_r(rn) | imm32, setflags),
                taken1,
            ),
            Instruction::ORR_reg { rd, rn, rm, setflags } => (
                write_nz(s, rd, s.get_r(rn) | s.get_r(rm), setflags),
                taken1,
            ),
            Instruction::POP { registers } => {
                let bits = registers.bits;
                let count = count_from(bits, 0);
                let sp = s.get_r(Reg::SP);
                if sp % 4 != 0 {
                    unaligned(s)
                } else if !pc_load_ok(s, bits, sp) {
                    (s, ExecuteResult::Fault { fault: Fault::InvalidState })
                } else {
                    let s1 = load_regs(s, bits, 0, sp).set_r(Reg::SP, addr_add(sp, 4 * count));
                    if in_set(bits, 15) {
                        (s1, ExecuteResult::Branched { cycles: (4 + count) as u64 })
                    } else {
                        (s1, ExecuteResult::Taken { cycles: (1 + count) as u64 })
                    }
                }
            },
            Instruction::PUSH { registers, .. } => {
                let bits = registers.bits;
                let count = count_from(bits, 0);
                let start = addr_sub(s.get_r(Reg::SP), (4 * count) as u32);
                if start % 4 != 0 {
                    unaligned(s)
                } else {
                    (
                        with_mem(s, store_regs(s, bits, 0, s.mem, start)).set_r(Reg::SP, start),
                        ExecuteResult::Taken { cycles: (1 + count) as u64 },
                    )
                }
            },
            Instruction::REV { rd, rm } => (s.set_r(rd, rev_spec(s.get_r(rm))), taken1),
            Instruction::REV16 { rd, rm } => (s.set_r(rd, rev16_spec(s.get_r(rm))), taken1),
            Instruction::REVSH { rd, rm } => (s.set_r(rd, revsh_spec(s.get_r(rm))), taken1),
            Instruction::ROR_reg { rd, rn, rm, setflags } => {
                let r = shift_c_spec(s.get_r(rn), SRType::ROR, (s.get_r(rm) % 0x100) as nat, c);
                (write_nzc(s, rd, r.0, r.1, setflags), taken1)
            },
            Instruction::RSB_imm { rd, rn, imm32, setflags } => (
                write_nzcv(s, rd, add_with_carry_spec(!s.get_r(rn), imm32, true), setflags),
                taken1,
            ),
            Instruction::SBC_reg { rd, rn, rm, setflags } => (
                write_nzcv(s, rd, add_with_carry_spec(s.get_r(rn), !s.get_r(rm), c), setflags),
                taken1,
            ),
            Instruction::STM { registers, rn, wback } => {
                let bits = registers.bits;
                let count = count_from(bits, 0);
                let start = s.get_r(rn);
                let s1 = with_mem(s, store_regs(s, bits, 0, s.mem, start));
                if start % 4 != 0 {
                    unaligned(s)
                } else {
                    (
                        if wback {
                            s1.set_r(rn, addr_add(start, 4 * count))
                        } else {
                            s1
                        },
                        ExecuteResult::Taken { cycles: (1 + count) as u64 },
                    )
                }
            },
            Instruction::STR_imm { rt, rn, imm32, index, add, wback, .. } => {
                let base = s.get_r(rn);
                let offset_address = if add {
                    addr_add(base, imm32 as nat)
                } else {
                    addr_sub(base, imm32)
                };
                let address = if index {
                    offset_address
                } else {
                    base
                };
                let s1 = if wback {
                    s.set_r(rn, offset_address)
                } else {
                    s
                };
                if address % 4 != 0 {
                    unaligned(s)
                } else {
                    (with_mem(s1, store_word(s.mem, address, s.get_r(rt))), taken2)
                }
            },
            Instruction::STR_reg { rt, rn, rm } => {
                let address = addr_add(s.get_r(rn), s.get_r(rm) as nat);
                if address % 4 != 0 {
                    unaligned(s)
                } else {
                    (with_mem(s, store_word(s.mem, address, s.get_r(rt))), taken2)
                }
            },
            Instruction::STRB_imm { rt, rn, imm32 } => (
                with_mem(s, s.mem.insert(addr_add(s.get_r(rn), imm32 as nat), (s.get_r(rt) % 0x100) as u8)),
                taken2,
            ),
            Instruction::STRB_reg { rt, rn, rm } => (
                with_mem(
                    s,
                    s.mem.insert(addr_add(s.get_r(rn), s.get_r(rm) as nat), (s.get_r(rt) % 0x100) as u8),
                ),
                taken2,
            ),
            Instruction::STRH_imm { rt, rn, imm32 } => {
                let address = addr_add(s.get_r(rn), imm32 as nat);
                if address % 2 != 0 {
                    unaligned(s)
                } else {
                    (with_mem(s, store_half(s.mem, address, (s.get_r(rt) % 0x1_0000) as u16)), taken2)
                }
            },
            Instruction::STRH_reg { rt, rn, rm } => {
                let address = addr_add(s.get_r(rn), s.get_r(rm) as nat);
                if address % 2 != 0 {
                    unaligned(s)
                } else {
                    (with_mem(s, store_half(s.mem, address, (s.get_r(rt) % 0x1_0000) as u16)), taken2)
                }
            },
            Instruction::SUB_imm { rd, rn, imm32, setflags, .. } => (
                write_nzcv(s, rd, add_with_carry_spec(s.get_r(rn), !imm32, true), setflags),
                taken1,
            ),
            Instruction::SUB_reg { rd, rn, rm, setflags, shift_t, shift_n, .. } => {
                let shifted = shift_c_spec(s.get_r(rm), shift_t, shift_n as nat, c).0;
                (write_nzcv(s, rd, add_with_carry_spec(s.get_r(rn), !shifted, true), setflags), taken1)
            },
            Instruction::SXTB { rd, rm } => (
                s.set_r(rd, sign_extend_spec(s.get_r(rm) % 0x100, 7, 32) as u32),
                taken1,
            ),
            Instruction::SXTH { rd, rm } => (
                s.set_r(rd, sign_extend_spec(s.get_r(rm) % 0x1_0000, 15, 32) as u32),
                taken1,
            ),
            Instruction::TBB { rn, rm } => {
                let halfwords = byte_at(s.mem, addr_add(s.get_r(rn), s.get_r(rm) as nat));
                (
                    s.branch_to(addr_add(s.get_r(Reg::PC), 2 * halfwords as nat)),
                    ExecuteResult::Branched { cycles: 1 },
                )
            },
            Instruction::TST_reg { rn, rm } => (
                s.with_psr(nz(s.psr, s.get_r(rn) & s.get_r(rm))),
                taken1,
            ),
            Instruction::UXTB { rd, rm } => (s.set_r(rd, s.get_r(rm) % 0x100), taken1),
            Instruction::UXTH { rd, rm } => (s.set_r(rd, s.get_r(rm) % 0x1_0000), taken1),
            Instruction::NOP | Instruction::SEV | Instruction::WFE | Instruction::WFI
            | Instruction::YIELD => (s, taken1),
            Instruction::SVC { .. } => (s, ExecuteResult::Exception { exception: Exception::SVCall }),
            _ => (s, ExecuteResult::Fault { fault: Fault::UndefinedInstruction }),
        }
    }
}



/// `a + k` modulo 2^32.
fn add32(a: u32, k: u32) -> (r: u32)
    ensures
        r == addr_add(a, k as nat),
{
    a.wrapping_add(k)
}

/// `a - k` modulo 2^32.
fn sub32(a: u32, k: u32) -> (r: u32)
    ensures
        r == addr_sub(a, k),
{
    a.wrapping_sub(k)
}

/// `a` plus a signed offset, modulo 2^32.
fn offset32(a: u32, off: i32) -> (r: u32)
    ensures
        r == addr_offset(a, off),
{
    if off < 0 {
        a.wrapping_sub((-(off as i64)) as u32)
    } else {
        a.wrapping_add(off as u32)
    }
}

/// Writes `result` to `rd` and, with `setflags`, N and Z.
fn write_nz_exec<B: Bus>(core: &mut Core<B>, rd: &Reg, result: u32, setflags: bool)
    requires
        old(core).wf(),
    ensures
        final(core).wf(),
        final(core)@ == write_nz(old(core)@, *rd, result, setflags),
{
    core.set_r(rd, result);
    if setflags {
        core.psr.set_n(result);
        core.psr.set_z(result);
    }
}

/// Writes `result` to `rd` and, with `setflags`, N, Z and C.
fn write_nzc_exec<B: Bus>(core: &mut Core<B>, rd: &Reg, result: u32, carry: bool, setflags: bool)
    requires
        old(core).wf(),
    ensures
        final(core).wf(),
        final(core)@ == write_nzc(old(core)@, *rd, result, carry, setflags),
{
    core.set_r(rd, result);
    if setflags {
        core.psr.set_n(result);
        core.psr.set_z(result);
        core.psr.set_c(carry);
    }
}

/// Writes the adder's result to `rd` and, with `setflags`, all four flags.
fn write_nzcv_exec<B: Bus>(core: &mut Core<B>, rd: &Reg, sum: (u32, bool, bool), setflags: bool)
    requires
        old(core).wf(),
    ensures
        final(core).wf(),
        final(core)@ == write_nzcv(old(core)@, *rd, sum, setflags),
{
    core.set_r(rd, sum.0);
    if setflags {
        core.psr.set_n(sum.0);
        core.psr.set_z(sum.0);
        core.psr.set_c(sum.1);
        core.psr.set_v(sum.2);
    }
}

/// Sets all four flags from the adder.
fn compare_exec<B: Bus>(core: &mut Core<B>, sum: (u32, bool, bool))
    requires
        old(core).wf(),
    ensures
        final(core).wf(),
        final(core)@ == compare(old(core)@, sum),
{
    core.psr.set_n(sum.0);
    core.psr.set_z(sum.0);
    core.psr.set_c(sum.1);
    core.psr.set_v(sum.2);
}

/// Additions, subtractions and comparisons.
pub open spec fn is_arith(i: Instruction) -> bool {
    i is ADC_reg || i is ADD_imm || i is ADD_reg || i is ADR || i is CMN_reg || i is CMP_imm || i is CMP_reg || i is RSB_imm || i is SBC_reg || i is SUB_imm || i is SUB_reg
}

#[verifier::rlimit(50)]
fn execute_arith<B: Bus>(core: &mut Core<B>, i: &Instruction) -> (r: ExecuteResult)
    requires
        old(core).wf(),
        is_arith(*i),
        old(core)@.condition_passed(),
    ensures
        final(core).wf(),
        (final(core)@, r) == execute_spec(old(core)@, *i),
{
    let c = core.psr.get_c();
    match *i {
        Instruction::ADC_reg { rd, rn, rm, setflags } => {
            let sum = add_with_carry(core.get_r(&rn), core.get_r(&rm), c);
            write_nzcv_exec(core, &rd, sum, setflags);
        },
        Instruction::ADD_imm { rd, rn, imm32, setflags, .. } => {
            let sum = add_with_carry(core.get_r(&rn), imm32, false);
            write_nzcv_exec(core, &rd, sum, setflags);
        },
        Instruction::ADD_reg { rd, rn, rm, setflags } => {
            let sum = add_with_carry(core.get_r(&rn), core.get_r(&rm), false);
            if rd == Reg::PC {
                core.branch_write_pc(sum.0);
                return ExecuteResult::Branched { cycles: 3 };
            }
            write_nzcv_exec(core, &rd, sum, setflags);
        },
        Instruction::ADR { rd, imm32 } => {
            let pc = core.get_r(&Reg::PC);
            proof {
                assert(pc & 0xFFFF_FFFC == pc - pc % 4) by (bit_vector);
            }
            let aligned = pc & 0xFFFF_FFFC;
            core.set_r(&rd, add32(aligned, imm32));
        },
        Instruction::CMN_reg { rn, rm } => {
            let sum = add_with_carry(core.get_r(&rn), core.get_r(&rm), false);
            compare_exec(core, sum);
        },
        Instruction::CMP_imm { rn, imm32, .. } => {
            let sum = add_with_carry(core.get_r(&rn), !imm32, true);
            compare_exec(core, sum);
        },
        Instruction::CMP_reg { rn, rm, shift_t, shift_n, .. } => {
            let (shifted, _) = shift_c(core.get_r(&rm), shift_t, shift_n as usize, c);
            let sum = add_with_carry(core.get_r(&rn), !shifted, true);
            compare_exec(core, sum);
        },
        Instruction::RSB_imm { rd, rn, imm32, setflags } => {
            let sum = add_with_carry(!core.get_r(&rn), imm32, true);
            write_nzcv_exec(core, &rd, sum, setflags);
        },
        Instruction::SBC_reg { rd, rn, rm, setflags } => {
            let sum = add_with_carry(core.get_r(&rn), !core.get_r(&rm), c);
            write_nzcv_exec(core, &rd, sum, setflags);
        },
        Instruction::SUB_imm { rd, rn, imm32, setflags, .. } => {
            let sum = add_with_carry(core.get_r(&rn), !imm32, true);
            write_nzcv_exec(core, &rd, sum, setflags);
        },
        Instruction::SUB_reg { rd, rn, rm, setflags, shift_t, shift_n, .. } => {
            let (shifted, _) = shift_c(core.get_r(&rm), shift_t, shift_n as usize, c);
            let sum = add_with_carry(core.get_r(&rn), !shifted, true);
            write_nzcv_exec(core, &rd, sum, setflags);
        },
        _ => {},
    }
    ExecuteResult::Taken { cycles: 1 }
}

/// Bitwise operations, moves and multiplication.
pub open spec fn is_logic(i: Instruction) -> bool {
    i is AND_reg || i is BIC_reg || i is EOR_reg || i is MOV_imm || i is MOV_reg || i is MUL || i is MVN_imm || i is MVN_reg || i is ORR_imm || i is ORR_reg || i is TST_reg
}

#[verifier::rlimit(50)]
fn execute_logic<B: Bus>(core: &mut Core<B>, i: &Instruction) -> (r: ExecuteResult)
    requires
        old(core).wf(),
        is_logic(*i),
        old(core)@.condition_passed(),
    ensures
        final(core).wf(),
        (final(core)@, r) == execute_spec(old(core)@, *i),
{
    let c = core.psr.get_c();
    match *i {
        Instruction::AND_reg { rd, rn, rm, setflags } => {
            let result = core.get_r(&rn) & core.get_r(&rm);
            write_nz_exec(core, &rd, result, setflags);
        },
        Instruction::BIC_reg { rd, rn, rm, setflags } => {
            let result = core.get_r(&rn) & !core.get_r(&rm);
            write_nz_exec(core, &rd, result, setflags);
        },
        Instruction::EOR_reg { rd, rn, rm, setflags } => {
            let result = core.get_r(&rn) ^ core.get_r(&rm);
            write_nz_exec(core, &rd, result, setflags);
        },
        Instruction::MOV_imm { rd, imm32, setflags } => {
            write_nz_exec(core, &rd, imm32, setflags);
        },
        Instruction::MOV_reg { rd, rm, setflags } => {
            let result = core.get_r(&rm);
            if rd == Reg::PC {
                core.branch_write_pc(result);
                return ExecuteResult::Branched { cycles: 3 };
            }
            write_nz_exec(core, &rd, result, setflags);
        },
        Instruction::MUL { rd, rn, rm, setflags } => {
            let result = core.get_r(&rn).wrapping_mul(core.get_r(&rm));
            write_nz_exec(core, &rd, result, setflags);
        },
        Instruction::MVN_imm { rd, imm32, setflags } => {
            write_nz_exec(core, &rd, !imm32, setflags);
        },
        Instruction::MVN_reg { rd, rm, setflags } => {
            let result = !core.get_r(&rm);
            write_nz_exec(core, &rd, result, setflags);
        },
        Instruction::ORR_imm { rd, rn, imm32, setflags } => {
            let result = core.get_r(&rn) | imm32;
            write_nz_exec(core, &rd, result, setflags);
        },
        Instruction::ORR_reg { rd, rn, rm, setflags } => {
            let result = core.get_r(&rn) | core.get_r(&rm);
            write_nz_exec(core, &rd, result, setflags);
        },
        Instruction::TST_reg { rn, rm } => {
            let result = core.get_r(&rn) & core.get_r(&rm);
            core.psr.set_n(result);
            core.psr.set_z(result);
        },
        _ => {},
    }
    ExecuteResult::Taken { cycles: 1 }
}

/// Shifts and rotations.
pub open spec fn is_shift(i: Instruction) -> bool {
    i is ASR_imm || i is ASR_reg || i is LSL_imm || i is LSL_reg || i is LSR_imm || i is LSR_reg || i is ROR_reg
}

#[verifier::rlimit(50)]
fn execute_shift<B: Bus>(core: &mut Core<B>, i: &Instruction) -> (r: ExecuteResult)
    requires
        old(core).wf(),
        is_shift(*i),
        old(core)@.condition_passed(),
    ensures
        final(core).wf(),
        (final(core)@, r) == execute_spec(old(core)@, *i),
{
    let c = core.psr.get_c();
    match *i {
        Instruction::ASR_imm { rd, rm, imm5, setflags } => {
            let (_, n) = decode_imm_shift(2, imm5);
            let (result, carry) = shift_c(core.get_r(&rm), SRType::ASR, n as usize, c);
            write_nzc_exec(core, &rd, result, carry, setflags);
        },
        Instruction::ASR_reg { rd, rn, rm, setflags } => {
            let n = core.get_r(&rm) % 0x100;
            let (result, carry) = shift_c(core.get_r(&rn), SRType::ASR, n as usize, c);
            write_nzc_exec(core, &rd, result, carry, setflags);
        },
        Instruction::LSL_imm { rd, rm, imm5, setflags } => {
            let (_, n) = decode_imm_shift(0, imm5);
            let (result, carry) = shift_c(core.get_r(&rm), SRType::LSL, n as usize, c);
            write_nzc_exec(core, &rd, result, carry, setflags);
        },
        Instruction::LSL_reg { rd, rn, rm, setflags } => {
            let n = core.get_r(&rm) % 0x100;
            let (result, carry) = shift_c(core.get_r(&rn), SRType::LSL, n as usize, c);
            write_nzc_exec(core, &rd, result, carry, setflags);
        },
        Instruction::LSR_imm { rd, rm, imm5, setflags } => {
            let (_, n) = decode_imm_shift(1, imm5);
            let (result, carry) = shift_c(core.get_r(&rm), SRType::LSR, n as usize, c);
            write_nzc_exec(core, &rd, result, carry, setflags);
        },
        Instruction::LSR_reg { rd, rn, rm, setflags } => {
            let n = core.get_r(&rm) % 0x100;
            let (result, carry) = shift_c(core.get_r(&rn), SRType::LSR, n as usize, c);
            write_nzc_exec(core, &rd, result, carry, setflags);
        },
        Instruction::ROR_reg { rd, rn, rm, setflags } => {
            let n = core.get_r(&rm) % 0x100;
            let (result, carry) = shift_c(core.get_r(&rn), SRType::ROR, n as usize, c);
            write_nzc_exec(core, &rd, result, carry, setflags);
        },
        _ => {},
    }
    ExecuteResult::Taken { cycles: 1 }
}

/// Byte reversal and extension.
pub open spec fn is_extend(i: Instruction) -> bool {
    i is REV || i is REV16 || i is REVSH || i is SXTB || i is SXTH || i is UXTB || i is UXTH
}

#[verifier::rlimit(50)]
fn execute_extend<B: Bus>(core: &mut Core<B>, i: &Instruction) -> (r: ExecuteResult)
    requires
        old(core).wf(),
        is_extend(*i),
        old(core)@.condition_passed(),
    ensures
        final(core).wf(),
        (final(core)@, r) == execute_spec(old(core)@, *i),
{
    let c = core.psr.get_c();
    match *i {
        Instruction::REV { rd, rm } => {
            let v = core.get_r(&rm);
            let result = (v % 0x100) * 0x100_0000 + ((v / 0x100) % 0x100) * 0x1_0000 + ((v
                / 0x1_0000) % 0x100) * 0x100 + v / 0x100_0000;
            core.set_r(&rd, result);
        },
        Instruction::REV16 { rd, rm } => {
            let v = core.get_r(&rm);
            let result = (v / 0x100) % 0x100 + (v % 0x100) * 0x100 + (v / 0x100_0000) * 0x1_0000
                + ((v / 0x1_0000) % 0x100) * 0x100_0000;
            core.set_r(&rd, result);
        },
        Instruction::REVSH { rd, rm } => {
            let v = core.get_r(&rm);
            let high = sign_extend(v % 0x100, 7, 24);
            proof {
                vstd::arithmetic::power2::lemma2_to64();
            }
            let result = (high as u32) * 0x100 + (v / 0x100) % 0x100;
            core.set_r(&rd, result);
        },
        Instruction::SXTB { rd, rm } => {
            let v = sign_extend(core.get_r(&rm) % 0x100, 7, 32);
            proof {
                vstd::arithmetic::power2::lemma2_to64();
            }
            core.set_r(&rd, v as u32);
        },
        Instruction::SXTH { rd, rm } => {
            let v = sign_extend(core.get_r(&rm) % 0x1_0000, 15, 32);
            proof {
                vstd::arithmetic::power2::lemma2_to64();
            }
            core.set_r(&rd, v as u32);
        },
        Instruction::UXTB { rd, rm } => {
            let v = core.get_r(&rm) % 0x100;
            core.set_r(&rd, v);
        },
        Instruction::UXTH { rd, rm } => {
            let v = core.get_r(&rm) % 0x1_0000;
            core.set_r(&rd, v);
        },
        _ => {},
    }
    ExecuteResult::Taken { cycles: 1 }
}

/// Branches.
pub open spec fn is_branch(i: Instruction) -> bool {
    i is B || i is BL || i is BLX || i is BX || i is CBZ || i is TBB
}

fn execute_branch<B: Bus>(core: &mut Core<B>, i: &Instruction) -> (r: ExecuteResult)
    requires
        old(core).wf(),
        is_branch(*i),
        checks_condition(*i) ==> old(core)@.condition_passed(),
    ensures
        final(core).wf(),
        (final(core)@, r) == execute_spec(old(core)@, *i),
{
    match *i {
        Instruction::B { .. } => execute_b(core, i),
        Instruction::BL { .. } => execute_bl(core, i),
        Instruction::BLX { .. } => execute_blx(core, i),
        Instruction::BX { .. } => execute_bx(core, i),
        Instruction::CBZ { .. } => execute_cbz(core, i),
        Instruction::TBB { .. } => execute_tbb(core, i),
        _ => ExecuteResult::NotTaken,
    }
}

#[verifier::rlimit(50)]
fn execute_b<B: Bus>(core: &mut Core<B>, i: &Instruction) -> (r: ExecuteResult)
    requires
        old(core).wf(),
        i is B,
        checks_condition(*i) ==> old(core)@.condition_passed(),
    ensures
        final(core).wf(),
        (final(core)@, r) == execute_spec(old(core)@, *i),
{
    match *i {
        Instruction::B { cond, imm32 } => {
            if core.condition_passed_b(&cond) {
                let pc = core.get_r(&Reg::PC);
                core.branch_write_pc(offset32(pc, imm32));
                ExecuteResult::Branched { cycles: 3 }
            } else {
                ExecuteResult::NotTaken
            }
        },
        _ => ExecuteResult::NotTaken,
    }
}

#[verifier::rlimit(50)]
fn execute_bl<B: Bus>(core: &mut Core<B>, i: &Instruction) -> (r: ExecuteResult)
    requires
        old(core).wf(),
        i is BL,
        checks_condition(*i) ==> old(core)@.condition_passed(),
    ensures
        final(core).wf(),
        (final(core)@, r) == execute_spec(old(core)@, *i),
{
    match *i {
        Instruction::BL { imm32 } => {
            let pc = core.get_r(&Reg::PC);
            core.set_r(&Reg::LR, pc | 1);
            core.branch_write_pc(offset32(pc, imm32));
            ExecuteResult::Branched { cycles: 4 }
        },
        _ => ExecuteResult::NotTaken,
    }
}

#[verifier::rlimit(50)]
fn execute_blx<B: Bus>(core: &mut Core<B>, i: &Instruction) -> (r: ExecuteResult)
    requires
        old(core).wf(),
        i is BLX,
        checks_condition(*i) ==> old(core)@.condition_passed(),
    ensures
        final(core).wf(),
        (final(core)@, r) == execute_spec(old(core)@, *i),
{
    match *i {
        Instruction::BLX { rm } => {
            let target = core.get_r(&rm);
            if target % 2 == 0 {
                return ExecuteResult::Fault { fault: Fault::InvalidState };
            }
            let next = add32(core.pc, 2);
            proof {
                assert(next & 0xFFFF_FFFE == next - next % 2) by (bit_vector);
            }
            core.set_r(&Reg::LR, (next & 0xFFFF_FFFE) | 1);
            core.branch_write_pc(target);
            ExecuteResult::Branched { cycles: 3 }
        },
        _ => ExecuteResult::NotTaken,
    }
}

#[verifier::rlimit(50)]
fn execute_bx<B: Bus>(core: &mut Core<B>, i: &Instruction) -> (r: ExecuteResult)
    requires
        old(core).wf(),
        i is BX,
        checks_condition(*i) ==> old(core)@.condition_passed(),
    ensures
        final(core).wf(),
        (final(core)@, r) == execute_spec(old(core)@, *i),
{
    match *i {
        Instruction::BX { rm } => {
            let target = core.get_r(&rm);
            if target % 2 == 0 {
                return ExecuteResult::Fault { fault: Fault::InvalidState };
            }
            core.branch_write_pc(target);
            ExecuteResult::Branched { cycles: 3 }
        },
        _ => ExecuteResult::NotTaken,
    }
}

#[verifier::rlimit(50)]
fn execute_cbz<B: Bus>(core: &mut Core<B>, i: &Instruction) -> (r: ExecuteResult)
    requires
        old(core).wf(),
        i is CBZ,
        checks_condition(*i) ==> old(core)@.condition_passed(),
    ensures
        final(core).wf(),
        (final(core)@, r) == execute_spec(old(core)@, *i),
{
    match *i {
        Instruction::CBZ { rn, nonzero, imm32 } => {
            if nonzero != (core.get_r(&rn) == 0) {
                let pc = core.get_r(&Reg::PC);
                core.branch_write_pc(add32(pc, imm32));
                ExecuteResult::Branched { cycles: 1 }
            } else {
                ExecuteResult::Taken { cycles: 1 }
            }
        },
        _ => ExecuteResult::NotTaken,
    }
}

#[verifier::rlimit(50)]
fn execute_tbb<B: Bus>(core: &mut Core<B>, i: &Instruction) -> (r: ExecuteResult)
    requires
        old(core).wf(),
        i is TBB,
        checks_condition(*i) ==> old(core)@.condition_passed(),
    ensures
        final(core).wf(),
        (final(core)@, r) == execute_spec(old(core)@, *i),
{
    match *i {
        Instruction::TBB { rn, rm } => {
            let table = add32(core.get_r(&rn), core.get_r(&rm));
            let halfwords = core.bus.read8(table) as u32;
            let pc = core.get_r(&Reg::PC);
            core.branch_write_pc(add32(pc, 2 * halfwords));
            ExecuteResult::Branched { cycles: 1 }
        },
        _ => ExecuteResult::NotTaken,
    }
}

/// Single loads and stores.
pub open spec fn is_memory(i: Instruction) -> bool {
    i is LDR_imm || i is LDR_lit || i is LDR_reg || i is LDRB_imm || i is LDRB_reg || i is LDRH_imm
        || i is LDRH_reg || i is LDRSB_reg || i is LDRSH_reg || i is STR_imm || i is STR_reg
        || i is STRB_imm || i is STRB_reg || i is STRH_imm || i is STRH_reg
}

/// Completes a load into `rt` of `data`, read before any register changed.
fn load_into_exec<B: Bus>(
    core: &mut Core<B>,
    rt: &Reg,
    data: u32,
    cycles: u64,
    rn: &Reg,
    wback: bool,
    offset_address: u32,
) -> (r: ExecuteResult)
    requires
        old(core).wf(),
    ensures
        final(core).wf(),
        (final(core)@, r) == load_into(
            old(core)@,
            if wback {
                old(core)@.set_r(*rn, offset_address)
            } else {
                old(core)@
            },
            *rt,
            data,
            cycles,
        ),
{
    if *rt == Reg::PC && data % 2 == 0 {
        return ExecuteResult::Fault { fault: Fault::InvalidState };
    }
    if wback {
        core.set_r(rn, offset_address);
    }
    if *rt == Reg::PC {
        core.branch_write_pc(data);
        ExecuteResult::Branched { cycles: cycles }
    } else {
        core.set_r(rt, data);
        ExecuteResult::Taken { cycles: cycles }
    }
}

fn execute_memory<B: Bus>(core: &mut Core<B>, i: &Instruction) -> (r: ExecuteResult)
    requires
        old(core).wf(),
        is_memory(*i),
        old(core)@.condition_passed(),
    ensures
        final(core).wf(),
        (final(core)@, r) == execute_spec(old(core)@, *i),
{
    match *i {
        Instruction::LDR_imm { .. } => execute_ldr_imm(core, i),
        Instruction::LDR_lit { .. } => execute_ldr_lit(core, i),
        Instruction::LDR_reg { .. } => execute_ldr_reg(core, i),
        Instruction::LDRB_imm { .. } => execute_ldrb_imm(core, i),
        Instruction::LDRB_reg { .. } => execute_ldrb_reg(core, i),
        Instruction::LDRH_imm { .. } => execute_ldrh_imm(core, i),
        Instruction::LDRH_reg { .. } => execute_ldrh_reg(core, i),
        Instruction::LDRSB_reg { .. } => execute_ldrsb_reg(core, i),
        Instruction::LDRSH_reg { .. } => execute_ldrsh_reg(core, i),
        Instruction::STR_imm { .. } => execute_str_imm(core, i),
        Instruction::STR_reg { .. } => execute_str_reg(core, i),
        Instruction::STRB_imm { .. } => execute_strb_imm(core, i),
        Instruction::STRB_reg { .. } => execute_strb_reg(core, i),
        Instruction::STRH_imm { .. } => execute_strh_imm(core, i),
        Instruction::STRH_reg { .. } => execute_strh_reg(core, i),
        _ => ExecuteResult::NotTaken,
    }
}

#[verifier::rlimit(50)]
fn execute_ldr_imm<B: Bus>(core: &mut Core<B>, i: &Instruction) -> (r: ExecuteResult)
    requires
        old(core).wf(),
        i is LDR_imm,
        old(core)@.condition_passed(),
    ensures
        final(core).wf(),
        (final(core)@, r) == execute_spec(old(core)@, *i),
{
    match *i {
        Instruction::LDR_imm { rt, rn, imm32, index, add, wback, .. } => {
            let base = core.get_r(&rn);
            let offset_address = if add {
                add32(base, imm32)
            } else {
                sub32(base, imm32)
            };
            let address = if index {
                offset_address
            } else {
                base
            };
            if address % 4 != 0 {
                return ExecuteResult::Fault { fault: Fault::UnalignedAccess };
            }
            let data = core.bus.read32(address);
            load_into_exec(core, &rt, data, 1, &rn, wback, offset_address)
        },
        _ => ExecuteResult::NotTaken,
    }
}

#[verifier::rlimit(50)]
fn execute_ldr_lit<B: Bus>(core: &mut Core<B>, i: &Instruction) -> (r: ExecuteResult)
    requires
        old(core).wf(),
        i is LDR_lit,
        old(core)@.condition_passed(),
    ensures
        final(core).wf(),
        (final(core)@, r) == execute_spec(old(core)@, *i),
{
    match *i {
        Instruction::LDR_lit { rt, imm32, .. } => {
            let pc = core.get_r(&Reg::PC);
            proof {
                assert(pc & 0xFFFF_FFFC == pc - pc % 4) by (bit_vector);
            }
            let aligned = pc & 0xFFFF_FFFC;
            let address = add32(aligned, imm32);
            if address % 4 != 0 {
                return ExecuteResult::Fault { fault: Fault::UnalignedAccess };
            }
            let data = core.bus.read32(address);
            load_into_exec(core, &rt, data, 2, &rt, false, 0)
        },
        _ => ExecuteResult::NotTaken,
    }
}

#[verifier::rlimit(50)]
fn execute_ldr_reg<B: Bus>(core: &mut Core<B>, i: &Instruction) -> (r: ExecuteResult)
    requires
        old(core).wf(),
        i is LDR_reg,
        old(core)@.condition_passed(),
    ensures
        final(core).wf(),
        (final(core)@, r) == execute_spec(old(core)@, *i),
{
    match *i {
        Instruction::LDR_reg { rt, rn, rm } => {
            let address = add32(core.get_r(&rn), core.get_r(&rm));
            if address % 4 != 0 {
                return ExecuteResult::Fault { fault: Fault::UnalignedAccess };
            }
            let data = core.bus.read32(address);
            load_into_exec(core, &rt, data, 2, &rn, false, 0)
        },
        _ => ExecuteResult::NotTaken,
    }
}

#[verifier::rlimit(50)]
fn execute_ldrb_imm<B: Bus>(core: &mut Core<B>, i: &Instruction) -> (r: ExecuteResult)
    requires
        old(core).wf(),
        i is LDRB_imm,
        old(core)@.condition_passed(),
    ensures
        final(core).wf(),
        (final(core)@, r) == execute_spec(old(core)@, *i),
{
    match *i {
        Instruction::LDRB_imm { rt, rn, imm32 } => {
            let value = core.bus.read8(add32(core.get_r(&rn), imm32)) as u32;
            core.set_r(&rt, value);
            ExecuteResult::Taken { cycles: 2 }
        },
        _ => ExecuteResult::NotTaken,
    }
}

#[verifier::rlimit(50)]
fn execute_ldrb_reg<B: Bus>(core: &mut Core<B>, i: &Instruction) -> (r: ExecuteResult)
    requires
        old(core).wf(),
        i is LDRB_reg,
        old(core)@.condition_passed(),
    ensures
        final(core).wf(),
        (final(core)@, r) == execute_spec(old(core)@, *i),
{
    match *i {
        Instruction::LDRB_reg { rt, rn, rm } => {
            let address = add32(core.get_r(&rn), core.get_r(&rm));
            let value = core.bus.read8(address) as u32;
            core.set_r(&rt, value);
            ExecuteResult::Taken { cycles: 2 }
        },
        _ => ExecuteResult::NotTaken,
    }
}

#[verifier::rlimit(50)]
fn execute_ldrh_imm<B: Bus>(core: &mut Core<B>, i: &Instruction) -> (r: ExecuteResult)
    requires
        old(core).wf(),
        i is LDRH_imm,
        old(core)@.condition_passed(),
    ensures
        final(core).wf(),
        (final(core)@, r) == execute_spec(old(core)@, *i),
{
    match *i {
        Instruction::LDRH_imm { rt, rn, imm32 } => {
            let address = add32(core.get_r(&rn), imm32);
            if address % 2 != 0 {
                return ExecuteResult::Fault { fault: Fault::UnalignedAccess };
            }
            let value = core.bus.read16(address) as u32;
            core.set_r(&rt, value);
            ExecuteResult::Taken { cycles: 2 }
        },
        _ => ExecuteResult::NotTaken,
    }
}

#[verifier::rlimit(50)]
fn execute_ldrh_reg<B: Bus>(core: &mut Core<B>, i: &Instruction) -> (r: ExecuteResult)
    requires
        old(core).wf(),
        i is LDRH_reg,
        old(core)@.condition_passed(),
    ensures
        final(core).wf(),
        (final(core)@, r) == execute_spec(old(core)@, *i),
{
    match *i {
        Instruction::LDRH_reg { rt, rn, rm } => {
            let address = add32(core.get_r(&rn), core.get_r(&rm));
            if address % 2 != 0 {
                return ExecuteResult::Fault { fault: Fault::UnalignedAccess };
            }
            let value = core.bus.read16(address) as u32;
            core.set_r(&rt, value);
            ExecuteResult::Taken { cycles: 2 }
        },
        _ => ExecuteResult::NotTaken,
    }
}

#[verifier::rlimit(50)]
fn execute_ldrsb_reg<B: Bus>(core: &mut Core<B>, i: &Instruction) -> (r: ExecuteResult)
    requires
        old(core).wf(),
        i is LDRSB_reg,
        old(core)@.condition_passed(),
    ensures
        final(core).wf(),
        (final(core)@, r) == execute_spec(old(core)@, *i),
{
    match *i {
        Instruction::LDRSB_reg { rt, rn, rm } => {
            let address = add32(core.get_r(&rn), core.get_r(&rm));
            let data = core.bus.read8(address) as u32;
            let value = sign_extend(data, 7, 32);
            proof {
                vstd::arithmetic::power2::lemma2_to64();
            }
            core.set_r(&rt, value as u32);
            ExecuteResult::Taken { cycles: 2 }
        },
        _ => ExecuteResult::NotTaken,
    }
}

#[verifier::rlimit(50)]
fn execute_ldrsh_reg<B: Bus>(core: &mut Core<B>, i: &Instruction) -> (r: ExecuteResult)
    requires
        old(core).wf(),
        i is LDRSH_reg,
        old(core)@.condition_passed(),
    ensures
        final(core).wf(),
        (final(core)@, r) == execute_spec(old(core)@, *i),
{
    match *i {
        Instruction::LDRSH_reg { rt, rn, rm } => {
            let address = add32(core.get_r(&rn), core.get_r(&rm));
            if address % 2 != 0 {
                return ExecuteResult::Fault { fault: Fault::UnalignedAccess };
            }
            let data = core.bus.read16(address) as u32;
            let value = sign_extend(data, 15, 32);
            proof {
                vstd::arithmetic::power2::lemma2_to64();
            }
            core.set_r(&rt, value as u32);
            ExecuteResult::Taken { cycles: 2 }
        },
        _ => ExecuteResult::NotTaken,
    }
}

#[verifier::rlimit(50)]
fn execute_str_imm<B: Bus>(core: &mut Core<B>, i: &Instruction) -> (r: ExecuteResult)
    requires
        old(core).wf(),
        i is STR_imm,
        old(core)@.condition_passed(),
    ensures
        final(core).wf(),
        (final(core)@, r) == execute_spec(old(core)@, *i),
{
    match *i {
        Instruction::STR_imm { rt, rn, imm32, index, add, wback, .. } => {
            let base = core.get_r(&rn);
            let offset_address = if add {
                add32(base, imm32)
            } else {
                sub32(base, imm32)
            };
            let address = if index {
                offset_address
            } else {
                base
            };
            if address % 4 != 0 {
                return ExecuteResult::Fault { fault: Fault::UnalignedAccess };
            }
            let value = core.get_r(&rt);
            if wback {
                core.set_r(&rn, offset_address);
            }
            core.bus.write32(address, value);
            ExecuteResult::Taken { cycles: 2 }
        },
        _ => ExecuteResult::NotTaken,
    }
}

#[verifier::rlimit(50)]
fn execute_str_reg<B: Bus>(core: &mut Core<B>, i: &Instruction) -> (r: ExecuteResult)
    requires
        old(core).wf(),
        i is STR_reg,
        old(core)@.condition_passed(),
    ensures
        final(core).wf(),
        (final(core)@, r) == execute_spec(old(core)@, *i),
{
    match *i {
        Instruction::STR_reg { rt, rn, rm } => {
            let address = add32(core.get_r(&rn), core.get_r(&rm));
            if address % 4 != 0 {
                return ExecuteResult::Fault { fault: Fault::UnalignedAccess };
            }
            let value = core.get_r(&rt);
            core.bus.write32(address, value);
            ExecuteResult::Taken { cycles: 2 }
        },
        _ => ExecuteResult::NotTaken,
    }
}

#[verifier::rlimit(50)]
fn execute_strb_imm<B: Bus>(core: &mut Core<B>, i: &Instruction) -> (r: ExecuteResult)
    requires
        old(core).wf(),
        i is STRB_imm,
        old(core)@.condition_passed(),
    ensures
        final(core).wf(),
        (final(core)@, r) == execute_spec(old(core)@, *i),
{
    match *i {
        Instruction::STRB_imm { rt, rn, imm32 } => {
            let address = add32(core.get_r(&rn), imm32);
            let value = core.get_r(&rt);
            core.bus.write8(address, (value % 0x100) as u8);
            ExecuteResult::Taken { cycles: 2 }
        },
        _ => ExecuteResult::NotTaken,
    }
}

#[verifier::rlimit(50)]
fn execute_strb_reg<B: Bus>(core: &mut Core<B>, i: &Instruction) -> (r: ExecuteResult)
    requires
        old(core).wf(),
        i is STRB_reg,
        old(core)@.condition_passed(),
    ensures
        final(core).wf(),
        (final(core)@, r) == execute_spec(old(core)@, *i),
{
    match *i {
        Instruction::STRB_reg { rt, rn, rm } => {
            let address = add32(core.get_r(&rn), core.get_r(&rm));
            let value = core.get_r(&rt);
            core.bus.write8(address, (value % 0x100) as u8);
            ExecuteResult::Taken { cycles: 2 }
        },
        _ => ExecuteResult::NotTaken,
    }
}

#[verifier::rlimit(50)]
fn execute_strh_imm<B: Bus>(core: &mut Core<B>, i: &Instruction) -> (r: ExecuteResult)
    requires
        old(core).wf(),
        i is STRH_imm,
        old(core)@.condition_passed(),
    ensures
        final(core).wf(),
        (final(core)@, r) == execute_spec(old(core)@, *i),
{
    match *i {
        Instruction::STRH_imm { rt, rn, imm32 } => {
            let address = add32(core.get_r(&rn), imm32);
            if address % 2 != 0 {
                return ExecuteResult::Fault { fault: Fault::UnalignedAccess };
            }
            let value = core.get_r(&rt);
            core.bus.write16(address, (value % 0x1_0000) as u16);
            ExecuteResult::Taken { cycles: 2 }
        },
        _ => ExecuteResult::NotTaken,
    }
}

#[verifier::rlimit(50)]
fn execute_strh_reg<B: Bus>(core: &mut Core<B>, i: &Instruction) -> (r: ExecuteResult)
    requires
        old(core).wf(),
        i is STRH_reg,
        old(core)@.condition_passed(),
    ensures
        final(core).wf(),
        (final(core)@, r) == execute_spec(old(core)@, *i),
{
    match *i {
        Instruction::STRH_reg { rt, rn, rm } => {
            let address = add32(core.get_r(&rn), core.get_r(&rm));
            if address % 2 != 0 {
                return ExecuteResult::Fault { fault: Fault::UnalignedAccess };
            }
            let value = core.get_r(&rt);
            core.bus.write16(address, (value % 0x1_0000) as u16);
            ExecuteResult::Taken { cycles: 2 }
        },
        _ => ExecuteResult::NotTaken,
    }
}

/// The number of registers in a set.
fn reg_count(bits: u16) -> (r: u32)
    ensures
        r as nat == count_from(bits, 0),
        r <= 16,
{
    let mut i: usize = 16;
    let mut n: u32 = 0;
    while i > 0
        invariant
            i <= 16,
            n as nat == count_from(bits, i as nat),
            n <= 16 - i,
        decreases i,
    {
        i = i - 1;
        if bits.get_bit(i) {
            n = n + 1;
        }
    }
    n
}

/// Stores the registers of `bits` in ascending order from `start`.
fn store_multiple<B: Bus>(core: &mut Core<B>, bits: u16, start: u32)
    requires
        old(core).wf(),
    ensures
        final(core).wf(),
        final(core)@ == with_mem(old(core)@, store_regs(old(core)@, bits, 0, old(core)@.mem, start)),
{
    let ghost s0 = core@;
    let mut i: usize = 0;
    let mut address: u32 = start;
    while i < 16
        invariant
            i <= 16,
            core.wf(),
            core@ == with_mem(s0, core@.mem),
            store_regs(s0, bits, i as nat, core@.mem, address) == store_regs(s0, bits, 0, s0.mem, start),
        decreases 16 - i,
    {
        if bits.get_bit(i) {
            let value = core.get_r(&Reg::from_index(i as u32));
            core.bus.write32(address, value);
            address = add32(address, 4);
        }
        i = i + 1;
    }
}

/// Loads the registers of `bits` in ascending order from `start`; a load
/// into `pc` clears bit 0.
fn load_multiple<B: Bus>(core: &mut Core<B>, bits: u16, start: u32)
    requires
        old(core).wf(),
    ensures
        final(core).wf(),
        final(core)@ == load_regs(old(core)@, bits, 0, start),
{
    let ghost s0 = core@;
    let mut i: usize = 0;
    let mut address: u32 = start;
    while i < 16
        invariant
            i <= 16,
            core.wf(),
            core@.mem == s0.mem,
            load_regs(core@, bits, i as nat, address) == load_regs(s0, bits, 0, start),
        decreases 16 - i,
    {
        if bits.get_bit(i) {
            let value = core.bus.read32(address);
            core.set_r(&Reg::from_index(i as u32), value);
            address = add32(address, 4);
        }
        i = i + 1;
    }
}

/// A set that holds register `j` counts at least one register from any `i <= j`.
proof fn lemma_count_holds(bits: u16, i: nat, j: nat)
    requires
        i <= j < 16,
        in_set(bits, j),
    ensures
        count_from(bits, i) >= 1,
    decreases j - i,
{
    if i < j {
        lemma_count_holds(bits, i + 1, j);
    }
}

/// Whether loading the registers `bits` from `start` keeps Thumb state.
fn pc_load_ok_exec<B: Bus>(core: &Core<B>, bits: u16, start: u32, count: u32) -> (r: bool)
    requires
        count as nat == count_from(bits, 0),
        count <= 16,
    ensures
        r == pc_load_ok(core@, bits, start),
{
    if bits.get_bit(15) {
        proof {
            lemma_count_holds(bits, 0, 15);
        }
        let target = core.bus.read32(add32(start, 4 * (count - 1)));
        target % 2 == 1
    } else {
        true
    }
}

/// Loads and stores of several registers.
pub open spec fn is_multiple(i: Instruction) -> bool {
    i is LDM || i is STM || i is PUSH || i is POP
}

#[verifier::rlimit(50)]
fn execute_multiple<B: Bus>(core: &mut Core<B>, i: &Instruction) -> (r: ExecuteResult)
    requires
        old(core).wf(),
        is_multiple(*i),
        old(core)@.condition_passed(),
    ensures
        final(core).wf(),
        (final(core)@, r) == execute_spec(old(core)@, *i),
{
    match *i {
        Instruction::LDM { .. } => execute_ldm(core, i),
        Instruction::POP { .. } => execute_pop(core, i),
        Instruction::PUSH { .. } => execute_push(core, i),
        Instruction::STM { .. } => execute_stm(core, i),
        _ => ExecuteResult::NotTaken,
    }
}

#[verifier::rlimit(100)]
fn execute_ldm<B: Bus>(core: &mut Core<B>, i: &Instruction) -> (r: ExecuteResult)
    requires
        old(core).wf(),
        i is LDM,
        old(core)@.condition_passed(),
    ensures
        final(core).wf(),
        (final(core)@, r) == execute_spec(old(core)@, *i),
{
    match *i {
        Instruction::LDM { registers, rn } => {
            let bits = registers.bits;
            let count = reg_count(bits);
            let start = core.get_r(&rn);
            let has_pc = bits.get_bit(15);
            if start % 4 != 0 {
                return ExecuteResult::Fault { fault: Fault::UnalignedAccess };
            }
            if !pc_load_ok_exec(core, bits, start, count) {
                return ExecuteResult::Fault { fault: Fault::InvalidState };
            }
            load_multiple(core, bits, start);
            if !bits.get_bit(rn.index()) {
                core.set_r(&rn, add32(start, 4 * count));
            }
            if has_pc {
                ExecuteResult::Branched { cycles: 1 + count as u64 }
            } else {
                ExecuteResult::Taken { cycles: 1 + count as u64 }
            }
        },
        _ => ExecuteResult::NotTaken,
    }
}

#[verifier::rlimit(100)]
fn execute_pop<B: Bus>(core: &mut Core<B>, i: &Instruction) -> (r: ExecuteResult)
    requires
        old(core).wf(),
        i is POP,
        old(core)@.condition_passed(),
    ensures
        final(core).wf(),
        (final(core)@, r) == execute_spec(old(core)@, *i),
{
    match *i {
        Instruction::POP { registers } => {
            let bits = registers.bits;
            let count = reg_count(bits);
            let sp = core.get_r(&Reg::SP);
            let has_pc = bits.get_bit(15);
            if sp % 4 != 0 {
                return ExecuteResult::Fault { fault: Fault::UnalignedAccess };
            }
            if !pc_load_ok_exec(core, bits, sp, count) {
                return ExecuteResult::Fault { fault: Fault::InvalidState };
            }
            load_multiple(core, bits, sp);
            core.set_r(&Reg::SP, add32(sp, 4 * count));
            if has_pc {
                ExecuteResult::Branched { cycles: 4 + count as u64 }
            } else {
                ExecuteResult::Taken { cycles: 1 + count as u64 }
            }
        },
        _ => ExecuteResult::NotTaken,
    }
}

#[verifier::rlimit(100)]
fn execute_push<B: Bus>(core: &mut Core<B>, i: &Instruction) -> (r: ExecuteResult)
    requires
        old(core).wf(),
        i is PUSH,
        old(core)@.condition_passed(),
    ensures
        final(core).wf(),
        (final(core)@, r) == execute_spec(old(core)@, *i),
{
    match *i {
        Instruction::PUSH { registers, .. } => {
            let bits = registers.bits;
            let count = reg_count(bits);
            let start = sub32(core.get_r(&Reg::SP), 4 * count);
            if start % 4 != 0 {
                return ExecuteResult::Fault { fault: Fault::UnalignedAccess };
            }
            store_multiple(core, bits, start);
            core.set_r(&Reg::SP, start);
            ExecuteResult::Taken { cycles: 1 + count as u64 }
        },
        _ => ExecuteResult::NotTaken,
    }
}

#[verifier::rlimit(100)]
fn execute_stm<B: Bus>(core: &mut Core<B>, i: &Instruction) -> (r: ExecuteResult)
    requires
        old(core).wf(),
        i is STM,
        old(core)@.condition_passed(),
    ensures
        final(core).wf(),
        (final(core)@, r) == execute_spec(old(core)@, *i),
{
    match *i {
        Instruction::STM { registers, rn, wback } => {
            let bits = registers.bits;
            let count = reg_count(bits);
            let start = core.get_r(&rn);
            if start % 4 != 0 {
                return ExecuteResult::Fault { fault: Fault::UnalignedAccess };
            }
            store_multiple(core, bits, start);
            if wback {
                core.set_r(&rn, add32(start, 4 * count));
            }
            ExecuteResult::Taken { cycles: 1 + count as u64 }
        },
        _ => ExecuteResult::NotTaken,
    }
}

/// Status, hint and undefined instructions.
pub open spec fn is_system(i: Instruction) -> bool {
    !is_arith(i) && !is_logic(i) && !is_shift(i) && !is_extend(i) && !is_branch(i) && !is_memory(
        i,
    ) && !is_multiple(i)
}

#[verifier::rlimit(50)]
fn execute_system<B: Bus>(core: &mut Core<B>, i: &Instruction) -> (r: ExecuteResult)
    requires
        old(core).wf(),
        is_system(*i),
        old(core)@.condition_passed(),
    ensures
        final(core).wf(),
        (final(core)@, r) == execute_spec(old(core)@, *i),
{
    match *i {
        Instruction::CPS { im } => {
            core.primask = im == CpsEffect::ID;
            ExecuteResult::Taken { cycles: 1 }
        },
        Instruction::DMB | Instruction::DSB | Instruction::ISB => ExecuteResult::Taken { cycles: 4 },
        Instruction::IT { firstcond, mask } => {
            let code = firstcond.value();
            core.set_itstate(((code as u32 * 16 + mask as u32) % 0x100) as u8);
            ExecuteResult::Taken { cycles: 4 }
        },
        Instruction::MRS { rd, spec_reg } => {
            let value: u32 = match spec_reg {
                SpecialReg::IPSR => core.psr.get_exception_number() as u32,
                SpecialReg::MSP => core.msp,
                SpecialReg::PSP => core.psp,
                SpecialReg::PRIMASK => if core.primask { 1 } else { 0 },
                SpecialReg::CONTROL => (if core.control.spsel { 2 } else { 0 }) + (if core.control.npriv { 1 } else { 0 }),
                _ => {
                    return ExecuteResult::Fault { fault: Fault::UndefinedInstruction };
                },
            };
            core.set_r(&rd, value);
            ExecuteResult::Taken { cycles: 4 }
        },
        Instruction::MSR_reg { rn, spec_reg } => {
            let value = core.get_r(&rn);
            let unprivileged = core.psr.exception_number == 0 && core.control.npriv;
            match spec_reg {
                SpecialReg::MSP => if !unprivileged {
                    core.set_msp(value);
                },
                SpecialReg::PSP => if !unprivileged {
                    core.set_psp(value);
                },
                SpecialReg::PRIMASK => {
                    core.primask = value % 2 == 1;
                },
                SpecialReg::CONTROL => if !unprivileged {
                    core.control = crate::register::Control {
                        spsel: (value / 2) % 2 == 1,
                        npriv: value % 2 == 1,
                    };
                },
                _ => {
                    return ExecuteResult::Fault { fault: Fault::UndefinedInstruction };
                },
            }
            ExecuteResult::Taken { cycles: 4 }
        },
        Instruction::BKPT { imm32 } => if imm32 == 0xAB {
            ExecuteResult::Taken { cycles: 1 }
        } else {
            ExecuteResult::Exception { exception: Exception::DebugMonitor }
        },
        Instruction::SVC { .. } => ExecuteResult::Exception { exception: Exception::SVCall },
        Instruction::NOP | Instruction::SEV | Instruction::WFE | Instruction::WFI
        | Instruction::YIELD => ExecuteResult::Taken { cycles: 1 },
        _ => ExecuteResult::Fault { fault: Fault::UndefinedInstruction },
    }
}

/// Whether the instruction is the semihosting breakpoint `BKPT #0xAB`.
pub open spec fn is_semihost(i: Instruction) -> bool {
    i matches Instruction::BKPT { imm32 } && imm32 == 0xAB
}

/// Executes one instruction. Its effect is `execute_spec`; a semihosting
/// breakpoint whose condition passes hands the request in `r0`/`r1` to
/// `handler` and writes back whatever it answers.
pub fn execute<B: Bus, H: SemihostHandler>(
    core: &mut Core<B>,
    instruction: &Instruction,
    handler: &mut H,
) -> (r: ExecuteResult)
    requires
        old(core).wf(),
    ensures
        final(core).wf(),
        !(is_semihost(*instruction) && old(core)@.condition_passed()) ==> (final(core)@, r)
            == execute_spec(old(core)@, *instruction),
        is_semihost(*instruction) && old(core)@.condition_passed() ==> r == (ExecuteResult::Taken {
            cycles: 1,
        }) && exists|response: SemihostingResponse|
            final(core)@ == semihost_return_spec(old(core)@, response),
{
    let i = instruction;
    if checks_condition_exec(i) && !core.condition_passed() {
        return ExecuteResult::NotTaken;
    }
    if let Instruction::BKPT { imm32 } = *instruction {
        if imm32 == 0xAB {
            let r0 = core.get_r(&Reg::R0);
            let r1 = core.get_r(&Reg::R1);
            let command = decode_semihostcmd(r0, r1, core);
            let response = handler.handle(&command);
            semihost_return(core, &response);
            return ExecuteResult::Taken { cycles: 1 };
        }
    }
    match *i {
        Instruction::ADC_reg { .. } | Instruction::ADD_imm { .. } | Instruction::ADD_reg { .. }
        | Instruction::ADR { .. } | Instruction::CMN_reg { .. } | Instruction::CMP_imm { .. }
        | Instruction::CMP_reg { .. } | Instruction::RSB_imm { .. } | Instruction::SBC_reg { .. }
        | Instruction::SUB_imm { .. } | Instruction::SUB_reg { .. } => execute_arith(core, i),
        Instruction::AND_reg { .. } | Instruction::BIC_reg { .. } | Instruction::EOR_reg { .. }
        | Instruction::MOV_imm { .. } | Instruction::MOV_reg { .. } | Instruction::MUL { .. }
        | Instruction::MVN_imm { .. } | Instruction::MVN_reg { .. } | Instruction::ORR_imm { .. }
        | Instruction::ORR_reg { .. } | Instruction::TST_reg { .. } => execute_logic(core, i),
        Instruction::ASR_imm { .. } | Instruction::ASR_reg { .. } | Instruction::LSL_imm { .. }
        | Instruction::LSL_reg { .. } | Instruction::LSR_imm { .. } | Instruction::LSR_reg { .. }
        | Instruction::ROR_reg { .. } => execute_shift(core, i),
        Instruction::REV { .. } | Instruction::REV16 { .. } | Instruction::REVSH { .. }
        | Instruction::SXTB { .. } | Instruction::SXTH { .. } | Instruction::UXTB { .. }
        | Instruction::UXTH { .. } => execute_extend(core, i),
        Instruction::B { .. } | Instruction::BL { .. } | Instruction::BLX { .. }
        | Instruction::BX { .. } | Instruction::CBZ { .. } | Instruction::TBB { .. } =>
            execute_branch(core, i),
        Instruction::LDR_imm { .. } | Instruction::LDR_lit { .. } | Instruction::LDR_reg { .. }
        | Instruction::LDRB_imm { .. } | Instruction::LDRB_reg { .. }
        | Instruction::LDRH_imm { .. } | Instruction::LDRH_reg { .. }
        | Instruction::LDRSB_reg { .. } | Instruction::LDRSH_reg { .. }
        | Instruction::STR_imm { .. } | Instruction::STR_reg { .. } | Instruction::STRB_imm { .. }
        | Instruction::STRB_reg { .. } | Instruction::STRH_imm { .. }
        | Instruction::STRH_reg { .. } => execute_memory(core, i),
        Instruction::LDM { .. } | Instruction::STM { .. } | Instruction::PUSH { .. }
        | Instruction::POP { .. } => execute_multiple(core, i),
        _ => execute_system(core, i),
    }
}

/// Whether the instruction is predicated by the IT state.
fn checks_condition_exec(i: &Instruction) -> (r: bool)
    ensures
        r == checks_condition(*i),
{
    match *i {
        Instruction::B { .. } => false,
        _ => true,
    }
}

/// The state and outcome of one instruction step: the instruction executes;
/// unless it faulted or is IT, the IT state moves on; unless it branched or
/// faulted, `pc` moves past it (2 bytes, or 4 for a 32-bit encoding).
pub open spec fn step_spec(s: CoreState, i: Instruction) -> (CoreState, ExecuteResult) {
    let (s1, r) = execute_spec(s, i);
    let s2 = if i is IT || r is Fault || r is Exception {
        s1
    } else {
        s1.with_psr(Psr { itstate: it_advance(s1.psr.itstate), ..s1.psr })
    };
    let width: nat = if is_thumb32(i) { 4 } else { 2 };
    if r is Taken || r is NotTaken {
        (CoreState { pc: addr_add(s2.pc, width), ..s2 }, r)
    } else {
        (s2, r)
    }
}

/// Executes one instruction and moves the IT state and `pc` on past it.
/// After a fault or an exception nothing moves: the outer loop enters the
/// exception from the instruction's own address.
pub fn step<B: Bus, H: SemihostHandler>(
    core: &mut Core<B>,
    instruction: &Instruction,
    handler: &mut H,
) -> (r: ExecuteResult)
    requires
        old(core).wf(),
    ensures
        final(core).wf(),
        !(is_semihost(*instruction) && old(core)@.condition_passed()) ==> (final(core)@, r)
            == step_spec(old(core)@, *instruction),
{
    let r = execute(core, instruction, handler);
    let is_it = match *instruction {
        Instruction::IT { .. } => true,
        _ => false,
    };
    match r {
        ExecuteResult::Fault { .. } | ExecuteResult::Exception { .. } => {},
        _ => if !is_it {
            core.it_advance();
        },
    }
    match r {
        ExecuteResult::Taken { .. } | ExecuteResult::NotTaken => {
            let width: u32 = if instruction.thumb32() { 4 } else { 2 };
            core.pc = add32(core.pc, width);
        },
        _ => {},
    }
    r
}

} // verus!
