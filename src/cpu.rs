//! The processor state: registers, banked stack pointers, status and the bus.

use crate::bus::{addr_add, Bus};
use crate::condition::{condition_code, condition_holds, condition_test, Condition};
use crate::register::{reg_index, Control, Psr, Reg};
use vstd::prelude::*;

verus! {

/// What a core holds, as values: `r` has sixteen entries, of which those of
/// `r0..r12` and `lr` are used; the stack pointer is `msp` or `psp`, and `pc`
/// is the address of the current instruction.
pub struct CoreState {
    pub r: Seq<u32>,
    pub msp: u32,
    pub psp: u32,
    pub pc: u32,
    pub psr: Psr,
    pub primask: bool,
    pub control: Control,
    pub mem: Map<u32, u8>,
}

/// `v` with bit 0 cleared.
pub open spec fn clear_bit0(v: u32) -> u32 {
    (v - v % 2) as u32
}

/// The IT state after one instruction of the block: the mask moves up by
/// one, and the block ends when no mask bit is left below the top one.
pub open spec fn it_advance(itstate: u8) -> u8 {
    if itstate % 8 == 0 {
        0
    } else {
        ((itstate / 32) * 32 + (itstate % 16) * 2) as u8
    }
}

impl CoreState {
    /// The value read from a register; `pc` reads as the current address plus 4.
    pub open spec fn get_r(self, reg: Reg) -> u32 {
        match reg {
            Reg::SP => if self.control.spsel {
                self.psp
            } else {
                self.msp
            },
            Reg::PC => addr_add(self.pc, 4),
            _ => self.r[reg_index(reg) as int],
        }
    }

    /// The state after writing a register; a write to `pc` clears bit 0.
    pub open spec fn set_r(self, reg: Reg, v: u32) -> CoreState {
        match reg {
            Reg::SP => if self.control.spsel {
                CoreState { psp: v, ..self }
            } else {
                CoreState { msp: v, ..self }
            },
            Reg::PC => CoreState { pc: clear_bit0(v), ..self },
            _ => CoreState { r: self.r.update(reg_index(reg) as int, v), ..self },
        }
    }

    /// The state with new status flags.
    pub open spec fn with_psr(self, psr: Psr) -> CoreState {
        CoreState { psr: psr, ..self }
    }

    /// The state after a branch to `target`.
    pub open spec fn branch_to(self, target: u32) -> CoreState {
        CoreState { pc: clear_bit0(target), ..self }
    }

    /// Whether the current instruction executes: outside an IT block always,
    /// inside one when the flags satisfy the block's current condition.
    pub open spec fn condition_passed(self) -> bool {
        self.psr.itstate % 16 == 0 || condition_holds(self.psr.itstate / 16, self.psr)
    }

    /// Whether Thread mode runs unprivileged.
    pub open spec fn unprivileged(self) -> bool {
        self.psr.exception_number == 0 && self.control.npriv
    }
}

/// A processor core over a bus.
pub struct Core<B: Bus> {
    pub r: Vec<u32>,
    pub msp: u32,
    pub psp: u32,
    pub pc: u32,
    pub psr: Psr,
    pub primask: bool,
    pub control: Control,
    pub bus: B,
}

impl<B: Bus> Core<B> {
    pub open spec fn view(&self) -> CoreState {
        CoreState {
            r: self.r@,
            msp: self.msp,
            psp: self.psp,
            pc: self.pc,
            psr: self.psr,
            primask: self.primask,
            control: self.control,
            mem: self.bus.mem(),
        }
    }

    /// The register file has its sixteen entries.
    pub open spec fn wf(&self) -> bool {
        self.r@.len() == 16
    }

    /// A core in Thread mode, privileged, on the main stack, with every
    /// register and flag clear.
    pub fn new(bus: B, msp: u32, pc: u32) -> (r: Core<B>)
        ensures
            r.wf(),
            r@.r == Seq::new(16, |i: int| 0u32),
            r.msp == msp,
            r.psp == 0,
            r.pc == pc,
            r.psr == (Psr { n: false, z: false, c: false, v: false, exception_number: 0, itstate: 0 }),
            !r.primask,
            r.control == (Control { spsel: false, npriv: false }),
            r.bus == bus,
    {
        let mut regs: Vec<u32> = Vec::new();
        let mut i: usize = 0;
        while i < 16
            invariant
                i <= 16,
                regs@ == Seq::new(i as nat, |j: int| 0u32),
            decreases 16 - i,
        {
            regs.push(0);
            i = i + 1;
            proof {
                assert(regs@ =~= Seq::new(i as nat, |j: int| 0u32));
            }
        }
        Core {
            r: regs,
            msp: msp,
            psp: 0,
            pc: pc,
            psr: Psr { n: false, z: false, c: false, v: false, exception_number: 0, itstate: 0 },
            primask: false,
            control: Control { spsel: false, npriv: false },
            bus: bus,
        }
    }

    /// Reads a register; `pc` reads as the current address plus 4.
    pub fn get_r(&self, reg: &Reg) -> (r: u32)
        requires
            self.wf(),
        ensures
            r == self@.get_r(*reg),
    {
        match reg {
            Reg::SP => if self.control.spsel {
                self.psp
            } else {
                self.msp
            },
            Reg::PC => self.pc.wrapping_add(4),
            _ => self.r[reg.index()],
        }
    }

    /// Writes a register; `sp` goes to the selected stack pointer and a
    /// write to `pc` clears bit 0.
    pub fn set_r(&mut self, reg: &Reg, value: u32)
        requires
            old(self).wf(),
        ensures
            final(self).wf(),
            final(self)@ == old(self)@.set_r(*reg, value),
    {
        match reg {
            Reg::SP => if self.control.spsel {
                self.psp = value;
            } else {
                self.msp = value;
            },
            Reg::PC => {
                self.branch_write_pc(value);
            },
            _ => {
                let i = reg.index();
                self.r.set(i, value);
            },
        }
    }

    /// Adds `delta` to a register, modulo 2^32.
    pub fn add_r(&mut self, reg: &Reg, delta: u32)
        requires
            old(self).wf(),
        ensures
            final(self).wf(),
            final(self)@ == old(self)@.set_r(
                *reg,
                addr_add(old(self)@.get_r(*reg), delta as nat),
            ),
    {
        let v = self.get_r(reg);
        self.set_r(reg, v.wrapping_add(delta));
    }

    pub fn set_msp(&mut self, value: u32)
        ensures
            final(self)@ == (CoreState { msp: value, ..old(self)@ }),
            final(self).r == old(self).r,
    {
        self.msp = value;
    }

    pub fn set_psp(&mut self, value: u32)
        ensures
            final(self)@ == (CoreState { psp: value, ..old(self)@ }),
            final(self).r == old(self).r,
    {
        self.psp = value;
    }

    /// Branches to `address`, bit 0 cleared.
    pub fn branch_write_pc(&mut self, address: u32)
        ensures
            final(self)@ == old(self)@.branch_to(address),
            final(self).r == old(self).r,
    {
        proof {
            assert(address & 0xFFFF_FFFE == address - address % 2) by (bit_vector);
        }
        self.pc = address & 0xFFFF_FFFE;
    }

    /// Replaces the status register.
    pub fn set_psr(&mut self, psr: Psr)
        ensures
            final(self)@ == old(self)@.with_psr(psr),
            final(self).r == old(self).r,
    {
        self.psr = psr;
    }

    pub fn set_itstate(&mut self, itstate: u8)
        ensures
            final(self)@ == old(self)@.with_psr(Psr { itstate: itstate, ..old(self).psr }),
            final(self).r == old(self).r,
    {
        self.psr.itstate = itstate;
    }

    /// Whether the current instruction executes under the IT state.
    pub fn condition_passed(&self) -> (r: bool)
        ensures
            r == self@.condition_passed(),
    {
        let it = self.psr.itstate;
        if it % 16 == 0 {
            true
        } else {
            condition_test(it / 16, &self.psr)
        }
    }

    /// Whether the flags satisfy an explicit condition.
    pub fn condition_passed_b(&self, cond: &Condition) -> (r: bool)
        ensures
            r == condition_holds(condition_code(*cond), self.psr),
    {
        condition_test(cond.value(), &self.psr)
    }

    /// Moves the IT state on past one instruction.
    pub fn it_advance(&mut self)
        ensures
            final(self)@ == old(self)@.with_psr(
                Psr { itstate: it_advance(old(self).psr.itstate), ..old(self).psr },
            ),
            final(self).r == old(self).r,
    {
        let it = self.psr.itstate;
        self.psr.itstate = if it % 8 == 0 {
            0
        } else {
            (it / 32) * 32 + (it % 16) * 2
        };
    }
}

} // verus!
