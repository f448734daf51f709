//! Facts about the bit primitives and about execution.

use crate::bits::field;
use crate::condition::Condition;
use crate::cpu::CoreState;
use crate::executor::{
    compare, execute_spec, step_spec, write_nzcv, ExecuteResult,
};
use crate::operation::{add_with_carry_spec, shift_c_spec};
use crate::instruction::{is_thumb32, Instruction, SRType};
use crate::register::{Psr, Reg};
use crate::bus::addr_add;
use vstd::arithmetic::power2::{lemma_pow2_pos, pow2};
use vstd::prelude::*;

verus! {

/// A field of `n` bits holds a value below `2^n`: `get_bits(v, lo..lo+n)`
/// has at most `n` significant bits.
pub proof fn lemma_field_fits(v: nat, lo: nat, n: nat)
    ensures
        field(v, lo, n) < pow2(n),
{
    lemma_pow2_pos(n);
}

/// An instruction whose condition fails inside an IT block changes nothing
/// and is not taken. B is the one exception: it carries its own condition.
pub proof fn lemma_failed_condition(s: CoreState, i: Instruction)
    requires
        !(i is B),
        !s.condition_passed(),
    ensures
        execute_spec(s, i) == (s, ExecuteResult::NotTaken),
{
}

/// A step that neither branches, faults nor writes `pc` moves `pc` on by the
/// width of the instruction: 2 bytes, or 4 for a 32-bit encoding.
pub proof fn lemma_pc_advances(s: CoreState, i: Instruction)
    requires
        execute_spec(s, i).1 is Taken || execute_spec(s, i).1 is NotTaken,
        execute_spec(s, i).0.pc == s.pc,
    ensures
        step_spec(s, i).0.pc == addr_add(s.pc, if is_thumb32(i) { 4 } else { 2 }),
{
}

/// CMP (register) sets the flags exactly as SUBS with the same operands does.
pub proof fn lemma_cmp_is_subs(
    s: CoreState,
    rd: Reg,
    rn: Reg,
    rm: Reg,
    shift_t: SRType,
    shift_n: u8,
    thumb32: bool,
)
    ensures
        execute_spec(s, Instruction::CMP_reg { rn, rm, shift_t, shift_n, thumb32 }).0.psr
            == execute_spec(
            s,
            Instruction::SUB_reg { rd, rn, rm, setflags: true, shift_t, shift_n, thumb32 },
        ).0.psr,
{
    let shifted = shift_c_spec(s.get_r(rm), shift_t, shift_n as nat, s.psr.c).0;
    let sum = add_with_carry_spec(s.get_r(rn), !shifted, true);
    if s.condition_passed() {
        assert(execute_spec(s, Instruction::CMP_reg { rn, rm, shift_t, shift_n, thumb32 }).0
            == compare(s, sum));
        assert(execute_spec(
            s,
            Instruction::SUB_reg { rd, rn, rm, setflags: true, shift_t, shift_n, thumb32 },
        ).0 == write_nzcv(s, rd, sum, true));
    }
}

/// CMP (immediate) sets the flags exactly as SUBS with the same operands does.
pub proof fn lemma_cmp_imm_is_subs(s: CoreState, rd: Reg, rn: Reg, imm32: u32, thumb32: bool)
    ensures
        execute_spec(s, Instruction::CMP_imm { rn, imm32, thumb32 }).0.psr == execute_spec(
            s,
            Instruction::SUB_imm { rd, rn, imm32, setflags: true, thumb32 },
        ).0.psr,
{
    let sum = add_with_carry_spec(s.get_r(rn), !imm32, true);
    if s.condition_passed() {
        assert(execute_spec(s, Instruction::CMP_imm { rn, imm32, thumb32 }).0 == compare(s, sum));
        assert(execute_spec(s, Instruction::SUB_imm { rd, rn, imm32, setflags: true, thumb32 }).0
            == write_nzcv(s, rd, sum, true));
    }
}

/// `ADDS Rd, Rn, #0` sets Z when `Rn` is zero, N from its sign bit, and
/// clears C and V.
pub proof fn lemma_add_zero_flags(s: CoreState, rd: Reg, rn: Reg, thumb32: bool)
    requires
        s.condition_passed(),
    ensures
        ({
            let p = execute_spec(
                s,
                Instruction::ADD_imm { rd, rn, imm32: 0, setflags: true, thumb32 },
            ).0.psr;
            &&& p.z == (s.get_r(rn) == 0)
            &&& p.n == (s.get_r(rn) >= 0x8000_0000)
            &&& !p.c
            &&& !p.v
        }),
{
}

/// After `IT EQ` with one instruction in the block, the next instruction
/// passes its condition exactly when Z is set; when Z is clear it is not
/// taken, changes nothing but `pc` and the IT state, and the block is over
/// after it.
#[verifier::rlimit(100)]
pub proof fn lemma_it_single(s: CoreState, i: Instruction)
    requires
        s.psr.itstate == 0,
        !(i is B),
        !(i is IT),
    ensures
        ({
            let s1 = step_spec(s, Instruction::IT { firstcond: Condition::EQ, mask: 8 }).0;
            let (s2, r) = step_spec(s1, i);
            &&& s1.condition_passed() == s.psr.z
            &&& !s.psr.z ==> r == ExecuteResult::NotTaken && s2 == (CoreState {
                pc: addr_add(s1.pc, if is_thumb32(i) { 4 } else { 2 }),
                psr: Psr { itstate: 0, ..s1.psr },
                ..s1
            })
        }),
{
    let it = Instruction::IT { firstcond: Condition::EQ, mask: 8 };
    let e = execute_spec(s, it);
    assert(e.0 == s.with_psr(Psr { itstate: 8, ..s.psr }));
    assert(e.1 == ExecuteResult::Taken { cycles: 4 });
    let s1 = step_spec(s, it).0;
    assert(s1.psr == Psr { itstate: 8, ..s.psr });
    if !s.psr.z {
        lemma_failed_condition(s1, i);
    }
}

} // verus!
