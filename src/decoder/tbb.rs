//! The TBB encoding.

use crate::bits::{field, Bits};
use crate::instruction::Instruction;
use crate::register::{reg_of, Reg};
use vstd::arithmetic::power2::lemma2_to64;
use vstd::prelude::*;

verus! {

/// TBB, encoding T1: `Rn` in bits 16..20, `Rm` in bits 0..4.
#[allow(non_snake_case)]
pub fn decode_TBB_t1(opcode: u32) -> (r: Instruction)
    ensures
        r == (Instruction::TBB {
            rn: reg_of(field(opcode as nat, 16, 4)),
            rm: reg_of(field(opcode as nat, 0, 4)),
        }),
{
    proof {
        lemma2_to64();
    }
    let rn = opcode.get_bits(16..20);
    let rm = opcode.get_bits(0..4);
    Instruction::TBB { rn: Reg::from(rn), rm: Reg::from(rm) }
}

} // verus!
