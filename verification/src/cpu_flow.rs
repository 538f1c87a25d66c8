use vstd::prelude::*;
use crate::cpu::{
    spec_after_load, spec_exception, spec_imm_se, spec_rd, spec_rs, spec_rt, spec_set_reg, spec_trap, Cpu,
    CpuError, Exception, Instruction,
};
use crate::gte::spec_control_readable;

verus! {

/// `n` is `m` with the pending load of `o` landed.
pub open spec fn spec_landed_as(o: Cpu, n: Cpu, m: Cpu) -> bool {
    &&& n == (Cpu { regs: n.regs, load: (0u32, 0u32), ..m })
    &&& n.regs@ == spec_after_load(o)
}

/// A taken jump or branch to `target`: the next instruction is the delay
/// slot, then execution goes on at `target`.
pub open spec fn spec_jump(o: Cpu, n: Cpu, target: u32) -> bool {
    spec_landed_as(o, n, Cpu { next_pc: target, branch: true, ..o })
}

/// A taken jump to `target` that writes the return address `ra` to
/// register `d`.
pub open spec fn spec_jump_link(o: Cpu, n: Cpu, target: u32, d: u32, ra: u32) -> bool {
    &&& n == (Cpu { regs: n.regs, load: (0u32, 0u32), next_pc: target, branch: true, ..o })
    &&& n.regs@ == spec_set_reg(spec_after_load(o), d, ra)
}

/// The target of a branch with immediate `i` taken from `pc`.
pub open spec fn spec_branch_target(pc: u32, i: Instruction) -> u32 {
    pc.wrapping_add((spec_imm_se(i) << 2u32) as u32)
}

/// The coprocessor 0 register `rd` as MFC0 reads it, `None` where it is not
/// readable.
pub open spec fn spec_cop0_read(c: Cpu, rd: u32) -> Option<u32> {
    if rd == 6 || rd == 7 {
        Some(0u32)
    } else if rd == 8 {
        Some(c.baddr)
    } else if rd == 12 {
        Some(c.sr)
    } else if rd == 13 {
        Some(c.cause)
    } else if rd == 14 {
        Some(c.epc)
    } else if rd == 15 {
        Some(2u32)
    } else {
        None
    }
}

/// The CPU after MTC0 writes `v` to coprocessor 0 register `rd`, `None`
/// where that write is not handled.
pub open spec fn spec_cop0_write(c: Cpu, rd: u32, v: u32) -> Option<Cpu> {
    if rd == 3 || rd == 5 || rd == 6 || rd == 7 || rd == 9 || rd == 11 {
        if v == 0 {
            Some(c)
        } else {
            None
        }
    } else if rd == 8 {
        Some(Cpu { baddr: v, ..c })
    } else if rd == 12 {
        Some(Cpu { sr: v, ..c })
    } else if rd == 13 {
        Some(Cpu { cause: (c.cause & !0x300u32) | (v & 0x300), ..c })
    } else {
        None
    }
}

/// Status register after RFE: the interrupt and mode bits are popped.
pub open spec fn spec_rfe_sr(sr: u32) -> u32 {
    (sr & !0xfu32) | ((sr & 0x3f) >> 2u32)
}

/// Whether a REGIMM branch (BLTZ, BGEZ, BLTZAL, BGEZAL) is taken.
pub open spec fn spec_bxx_taken(v: u32, i: Instruction) -> bool {
    ((v as i32) < 0) != ((i.0 >> 16u32) & 1 == 1)
}

/// Whether a REGIMM branch links, writing the return address to R31.
pub open spec fn spec_bxx_links(i: Instruction) -> bool {
    (i.0 >> 17u32) & 0xf == 8
}

impl Cpu {
    /// Lands the pending load and raises exception `e`.
    pub fn trap(&mut self, e: Exception)
        requires
            old(self).load.0 < 32,
        ensures
            spec_trap(*old(self), *final(self), e),
    {
        self.delayed_load();
        self.exception(e);
    }

    /// Jump: the target's top four bits come from the current instruction's
    /// address.
    pub fn op_j(&mut self, instr: Instruction)
        requires
            old(self).load.0 < 32,
        ensures
            spec_op_j(*old(self), *final(self), instr),
    {
        self.next_pc = (self.current_pc & 0xf000_0000) | (instr.imm26() << 2);
        self.branch = true;
        self.delayed_load();
    }

    /// Jump and link: R31 gets the address after the delay slot.
    pub fn op_jal(&mut self, instr: Instruction)
        requires
            old(self).load.0 < 32,
        ensures
            spec_op_jal(*old(self), *final(self), instr),
    {
        let ra = self.next_pc;
        self.next_pc = (self.pc & 0xf000_0000) | (instr.imm26() << 2);
        self.delayed_load();
        self.branch = true;
        self.set_reg(31, ra);
    }

    /// Jump to the address in register `rs`.
    pub fn op_jr(&mut self, instr: Instruction)
        requires
            old(self).load.0 < 32,
        ensures
            spec_op_jr(*old(self), *final(self), instr),
    {
        self.next_pc = self.reg(instr.rs());
        self.delayed_load();
        self.branch = true;
    }

    /// Jump to the address in register `rs`, the return address to `rd`.
    pub fn op_jalr(&mut self, instr: Instruction)
        requires
            old(self).load.0 < 32,
        ensures
            spec_op_jalr(*old(self), *final(self), instr),
    {
        let ra = self.next_pc;
        self.next_pc = self.reg(instr.rs());
        self.delayed_load();
        self.branch = true;
        self.set_reg(instr.rd(), ra);
    }

    /// Takes a branch: `offset` words from the delay slot's address.
    pub fn branch(&mut self, offset: u32)
        requires
            old(self).load.0 < 32,
        ensures
            spec_jump(*old(self), *final(self), old(self).pc.wrapping_add((offset << 2u32) as u32)),
    {
        let offset = offset << 2;
        self.next_pc = self.pc.wrapping_add(offset);
        self.delayed_load();
        self.branch = true;
    }

    /// Branch if registers `rs` and `rt` differ; untaken, nothing changes.
    pub fn op_bne(&mut self, instr: Instruction)
        requires
            old(self).load.0 < 32,
        ensures
            spec_op_bne(*old(self), *final(self), instr),
    {
        if self.reg(instr.rs()) != self.reg(instr.rt()) {
            self.branch(instr.imm_se());
        }
    }

    /// Branch if registers `rs` and `rt` are equal; untaken, nothing changes.
    pub fn op_beq(&mut self, instr: Instruction)
        requires
            old(self).load.0 < 32,
        ensures
            spec_op_beq(*old(self), *final(self), instr),
    {
        if self.reg(instr.rs()) == self.reg(instr.rt()) {
            self.branch(instr.imm_se());
        }
    }

    /// Branch if register `rs`, signed, is above zero.
    pub fn op_bgtz(&mut self, instr: Instruction)
        requires
            old(self).load.0 < 32,
        ensures
            spec_op_bgtz(*old(self), *final(self), instr),
    {
        let v = self.reg(instr.rs()) as i32;
        if v > 0 {
            self.branch(instr.imm_se());
        }
    }

    /// Branch if register `rs`, signed, is at most zero.
    pub fn op_blez(&mut self, instr: Instruction)
        requires
            old(self).load.0 < 32,
        ensures
            spec_op_blez(*old(self), *final(self), instr),
    {
        let v = self.reg(instr.rs()) as i32;
        if v <= 0 {
            self.branch(instr.imm_se());
        }
    }

    /// BLTZ, BGEZ, BLTZAL and BGEZAL: bit 16 selects "greater or equal",
    /// bits 20..17 equal to 8 select linking (R31 gets the delay slot's
    /// successor whether or not the branch is taken).
    pub fn op_bxx(&mut self, instr: Instruction)
        requires
            old(self).load.0 < 32,
        ensures
            spec_op_bxx(*old(self), *final(self), instr),
    {
        let i = instr.imm_se();
        let code = instr.0;
        let is_bgez = (code >> 16) & 1;
        let is_link = (code >> 17) & 0xf == 8;
        proof {
            crate::bitfacts::lemma_and_le_u32(code >> 16, 1);
        }
        let v = self.reg(instr.rs()) as i32;
        let below: u32 = if v < 0 { 1 } else { 0 };
        let test = below ^ is_bgez;
        assert(test != 0 <==> (below != is_bgez)) by (bit_vector)
            requires
                below <= 1,
                is_bgez <= 1,
                test == below ^ is_bgez,
        ;
        let ghost o = *self;
        self.delayed_load();
        if is_link {
            let ra = self.pc;
            self.set_reg(31, ra);
        }
        let ghost m = *self;
        assert(m.regs@ == if spec_bxx_links(instr) { spec_set_reg(spec_after_load(o), 31, o.pc) } else { spec_after_load(o) });
        assert(test != 0 <==> spec_bxx_taken(o.regs[spec_rs(instr) as int], instr));
        if test != 0 {
            self.branch(i);
            assert(self.regs@ == spec_after_load(m));
            assert(spec_after_load(m) == m.regs@);
        }
    }

    /// System call exception.
    pub fn op_syscall(&mut self, instr: Instruction)
        requires
            old(self).load.0 < 32,
        ensures
            spec_op_syscall(*old(self), *final(self), instr),
    {
        self.trap(Exception::SysCall);
    }

    /// Breakpoint exception.
    pub fn op_break(&mut self, instr: Instruction)
        requires
            old(self).load.0 < 32,
        ensures
            spec_op_break(*old(self), *final(self), instr),
    {
        self.trap(Exception::Break);
    }

    /// An opcode the CPU does not know: illegal instruction exception.
    pub fn op_illegal(&mut self, instr: Instruction)
        requires
            old(self).load.0 < 32,
        ensures
            spec_op_illegal(*old(self), *final(self), instr),
    {
        self.trap(Exception::IllegalInstruction);
    }

    /// Load to coprocessor 0: coprocessor error.
    pub fn op_lwc0(&mut self, instr: Instruction)
        requires
            old(self).load.0 < 32,
        ensures
            spec_op_lwc0(*old(self), *final(self), instr),
    {
        self.trap(Exception::CoprocessorError);
    }

    /// Load to coprocessor 1 (absent): coprocessor error.
    pub fn op_lwc1(&mut self, instr: Instruction)
        requires
            old(self).load.0 < 32,
        ensures
            spec_op_lwc1(*old(self), *final(self), instr),
    {
        self.trap(Exception::CoprocessorError);
    }

    /// Load to coprocessor 3 (absent): coprocessor error.
    pub fn op_lwc3(&mut self, instr: Instruction)
        requires
            old(self).load.0 < 32,
        ensures
            spec_op_lwc3(*old(self), *final(self), instr),
    {
        self.trap(Exception::CoprocessorError);
    }

    /// Store from coprocessor 0: coprocessor error.
    pub fn op_swc0(&mut self, instr: Instruction)
        requires
            old(self).load.0 < 32,
        ensures
            spec_op_swc0(*old(self), *final(self), instr),
    {
        self.trap(Exception::CoprocessorError);
    }

    /// Store from coprocessor 1 (absent): coprocessor error.
    pub fn op_swc1(&mut self, instr: Instruction)
        requires
            old(self).load.0 < 32,
        ensures
            spec_op_swc1(*old(self), *final(self), instr),
    {
        self.trap(Exception::CoprocessorError);
    }

    /// Store from coprocessor 3 (absent): coprocessor error.
    pub fn op_swc3(&mut self, instr: Instruction)
        requires
            old(self).load.0 < 32,
        ensures
            spec_op_swc3(*old(self), *final(self), instr),
    {
        self.trap(Exception::CoprocessorError);
    }

    /// Coprocessor 1 (absent): coprocessor error.
    pub fn op_cop1(&mut self, instr: Instruction)
        requires
            old(self).load.0 < 32,
        ensures
            spec_op_cop1(*old(self), *final(self), instr),
    {
        self.trap(Exception::CoprocessorError);
    }

    /// Coprocessor 3 (absent): coprocessor error, the pending load left
    /// pending.
    pub fn op_cop3(&mut self, instr: Instruction)
        ensures
            spec_op_cop3(*old(self), *final(self), instr),
    {
        self.exception(Exception::CoprocessorError);
    }

    /// Store from a GTE data register: not carried out; nothing changes.
    pub fn op_swc2(&mut self, instr: Instruction)
        ensures
            spec_op_swc2(*old(self), *final(self), instr),
    {
    }

    /// Move to a GTE data register: not carried out; nothing changes.
    pub fn op_mtc2(&mut self, instr: Instruction)
        ensures
            spec_op_mtc2(*old(self), *final(self), instr),
    {
    }

    /// Move from a GTE data register: starts loading 0 into `rt`.
    pub fn op_mfc2(&mut self, instr: Instruction)
        requires
            old(self).load.0 < 32,
        ensures
            spec_op_mfc2(*old(self), *final(self), instr),
    {
        self.delayed_load_chain(instr.rt(), 0);
    }

    /// Move from a GTE control register into `rt`; a register the GTE does
    /// not expose is an error and nothing changes.
    pub fn op_cfc2(&mut self, instr: Instruction) -> (r: Result<(), CpuError>)
        requires
            old(self).load.0 < 32,
        ensures
            spec_op_cfc2(*old(self), *final(self), instr, r),
    {
        let rd = instr.rd() as u8;
        if (13 <= rd && rd <= 15) || (21 <= rd && rd <= 31) {
            let v = self.gte.control(rd);
            self.delayed_load_chain(instr.rt(), v);
            Ok(())
        } else {
            Err(CpuError::Cop2)
        }
    }

    /// Move to a GTE control register: the GTE's register file is not
    /// modelled, so after the pending load lands this is an error.
    pub fn op_ctc2(&mut self, instr: Instruction) -> (r: Result<(), CpuError>)
        requires
            old(self).load.0 < 32,
        ensures
            spec_op_ctc2(*old(self), *final(self), instr, r),
    {
        self.delayed_load();
        Err(CpuError::Cop2)
    }

    /// Load to a GTE data register: a misaligned address raises a load
    /// address error; an aligned one is an error, the GTE's data registers
    /// not being modelled.
    pub fn op_lwc2(&mut self, instr: Instruction) -> (r: Result<(), CpuError>)
        requires
            old(self).load.0 < 32,
        ensures
            spec_op_lwc2(*old(self), *final(self), instr, r),
    {
        let addr = self.reg(instr.rs()).wrapping_add(instr.imm_se());
        self.delayed_load();
        if addr % 4 == 0 {
            Err(CpuError::Cop2)
        } else {
            self.exception(Exception::LoadAddressError);
            Ok(())
        }
    }

    /// Coprocessor 2 (GTE): bit 4 of the coprocessor opcode marks a GTE
    /// command, which is not modelled; otherwise MFC2, CFC2, MTC2 or CTC2.
    pub fn op_cop2(&mut self, instr: Instruction) -> (r: Result<(), CpuError>)
        requires
            old(self).load.0 < 32,
        ensures
            spec_op_cop2(*old(self), *final(self), instr, r),
    {
        let op = instr.cop_opcode();
        if op & 0x10 != 0 {
            Err(CpuError::Cop2)
        } else if op == 0 {
            self.op_mfc2(instr);
            Ok(())
        } else if op == 2 {
            self.op_cfc2(instr)
        } else if op == 4 {
            self.op_mtc2(instr);
            Ok(())
        } else if op == 6 {
            self.op_ctc2(instr)
        } else {
            Err(CpuError::Cop2)
        }
    }

    /// Move from a coprocessor 0 register into `rt`; an unreadable register
    /// is an error and nothing changes.
    pub fn op_mfc0(&mut self, instr: Instruction) -> (r: Result<(), CpuError>)
        requires
            old(self).load.0 < 32,
        ensures
            spec_op_mfc0(*old(self), *final(self), instr, r),
    {
        let rd = instr.rd();
        let v = if rd == 6 || rd == 7 {
            0u32
        } else if rd == 8 {
            self.baddr
        } else if rd == 12 {
            self.sr
        } else if rd == 13 {
            self.cause
        } else if rd == 14 {
            self.epc
        } else if rd == 15 {
            2u32
        } else {
            return Err(CpuError::Cop0);
        };
        self.delayed_load_chain(instr.rt(), v);
        Ok(())
    }

    /// Move register `rt` to coprocessor 0 register `rd`, after the pending
    /// load lands; a write that is not handled is an error.
    pub fn op_mtc0(&mut self, instr: Instruction) -> (r: Result<(), CpuError>)
        requires
            old(self).load.0 < 32,
        ensures
            spec_op_mtc0(*old(self), *final(self), instr, r),
    {
        let v = self.reg(instr.rt());
        self.delayed_load();
        let rd = instr.rd();
        if rd == 3 || rd == 5 || rd == 6 || rd == 7 || rd == 9 || rd == 11 {
            if v != 0 {
                return Err(CpuError::Cop0);
            }
        } else if rd == 8 {
            self.baddr = v;
        } else if rd == 12 {
            self.sr = v;
        } else if rd == 13 {
            self.cause = (self.cause & !0x300u32) | (v & 0x300);
        } else {
            return Err(CpuError::Cop0);
        }
        Ok(())
    }

    /// Return from exception: pops the interrupt and mode bits of SR.
    pub fn op_rfe(&mut self, instr: Instruction) -> (r: Result<(), CpuError>)
        ensures
            spec_op_rfe(*old(self), *final(self), instr, r),
    {
        if instr.0 & 0x3f != 0x10 {
            return Err(CpuError::Cop0);
        }
        let mode = self.sr & 0x3f;
        self.sr = (self.sr & !0xfu32) | (mode >> 2);
        Ok(())
    }

    /// Coprocessor 0: MFC0, MTC0 or RFE; any other operation is an error.
    pub fn op_cop0(&mut self, instr: Instruction) -> (r: Result<(), CpuError>)
        requires
            old(self).load.0 < 32,
        ensures
            spec_op_cop0(*old(self), *final(self), instr, r),
    {
        let op = instr.cop_opcode();
        if op == 0 {
            self.op_mfc0(instr)
        } else if op == 4 {
            self.op_mtc0(instr)
        } else if op == 0x10 {
            self.op_rfe(instr)
        } else {
            Err(CpuError::Cop0)
        }
    }
}

/// The effect of `Cpu::op_j`.
pub open spec fn spec_op_j(before: Cpu, after: Cpu, instr: Instruction) -> bool {
    spec_jump(before, after, (before.current_pc & 0xf000_0000) | ((instr.0 & 0x3ff_ffff) << 2u32) as u32)
}

/// The effect of `Cpu::op_jal`.
pub open spec fn spec_op_jal(before: Cpu, after: Cpu, instr: Instruction) -> bool {
    spec_jump_link(
        before,
        after,
        (before.pc & 0xf000_0000) | ((instr.0 & 0x3ff_ffff) << 2u32) as u32,
        31,
        before.next_pc,
    )
}

/// The effect of `Cpu::op_jr`.
pub open spec fn spec_op_jr(before: Cpu, after: Cpu, instr: Instruction) -> bool {
    spec_jump(before, after, before.regs[spec_rs(instr) as int])
}

/// The effect of `Cpu::op_jalr`.
pub open spec fn spec_op_jalr(before: Cpu, after: Cpu, instr: Instruction) -> bool {
    spec_jump_link(before, after, before.regs[spec_rs(instr) as int], spec_rd(instr), before.next_pc)
}

/// The effect of `Cpu::op_bne`.
pub open spec fn spec_op_bne(before: Cpu, after: Cpu, instr: Instruction) -> bool {
    if before.regs[spec_rs(instr) as int] != before.regs[spec_rt(instr) as int] {
        spec_jump(before, after, spec_branch_target(before.pc, instr))
    } else {
        after == before
    }
}

/// The effect of `Cpu::op_beq`.
pub open spec fn spec_op_beq(before: Cpu, after: Cpu, instr: Instruction) -> bool {
    if before.regs[spec_rs(instr) as int] == before.regs[spec_rt(instr) as int] {
        spec_jump(before, after, spec_branch_target(before.pc, instr))
    } else {
        after == before
    }
}

/// The effect of `Cpu::op_bgtz`.
pub open spec fn spec_op_bgtz(before: Cpu, after: Cpu, instr: Instruction) -> bool {
    if (before.regs[spec_rs(instr) as int] as i32) > 0 {
        spec_jump(before, after, spec_branch_target(before.pc, instr))
    } else {
        after == before
    }
}

/// The effect of `Cpu::op_blez`.
pub open spec fn spec_op_blez(before: Cpu, after: Cpu, instr: Instruction) -> bool {
    if (before.regs[spec_rs(instr) as int] as i32) <= 0 {
        spec_jump(before, after, spec_branch_target(before.pc, instr))
    } else {
        after == before
    }
}

/// The effect of `Cpu::op_bxx`.
pub open spec fn spec_op_bxx(before: Cpu, after: Cpu, instr: Instruction) -> bool {
    ({
        let o = before;
        let n = after;
        let regs = if spec_bxx_links(instr) { spec_set_reg(spec_after_load(o), 31, o.pc) } else { spec_after_load(o) };
        &&& n.regs@ == regs
        &&& n.load == (0u32, 0u32)
        &&& if spec_bxx_taken(o.regs[spec_rs(instr) as int], instr) {
            n == (Cpu { regs: n.regs, load: (0u32, 0u32), next_pc: spec_branch_target(o.pc, instr), branch: true, ..o })
        } else {
            n == (Cpu { regs: n.regs, load: (0u32, 0u32), ..o })
        }
    })
}

/// The effect of `Cpu::op_syscall`.
pub open spec fn spec_op_syscall(before: Cpu, after: Cpu, instr: Instruction) -> bool {
    spec_trap(before, after, Exception::SysCall)
}

/// The effect of `Cpu::op_break`.
pub open spec fn spec_op_break(before: Cpu, after: Cpu, instr: Instruction) -> bool {
    spec_trap(before, after, Exception::Break)
}

/// The effect of `Cpu::op_illegal`.
pub open spec fn spec_op_illegal(before: Cpu, after: Cpu, instr: Instruction) -> bool {
    spec_trap(before, after, Exception::IllegalInstruction)
}

/// The effect of `Cpu::op_lwc0`.
pub open spec fn spec_op_lwc0(before: Cpu, after: Cpu, instr: Instruction) -> bool {
    spec_trap(before, after, Exception::CoprocessorError)
}

/// The effect of `Cpu::op_lwc1`.
pub open spec fn spec_op_lwc1(before: Cpu, after: Cpu, instr: Instruction) -> bool {
    spec_trap(before, after, Exception::CoprocessorError)
}

/// The effect of `Cpu::op_lwc3`.
pub open spec fn spec_op_lwc3(before: Cpu, after: Cpu, instr: Instruction) -> bool {
    spec_trap(before, after, Exception::CoprocessorError)
}

/// The effect of `Cpu::op_swc0`.
pub open spec fn spec_op_swc0(before: Cpu, after: Cpu, instr: Instruction) -> bool {
    spec_trap(before, after, Exception::CoprocessorError)
}

/// The effect of `Cpu::op_swc1`.
pub open spec fn spec_op_swc1(before: Cpu, after: Cpu, instr: Instruction) -> bool {
    spec_trap(before, after, Exception::CoprocessorError)
}

/// The effect of `Cpu::op_swc3`.
pub open spec fn spec_op_swc3(before: Cpu, after: Cpu, instr: Instruction) -> bool {
    spec_trap(before, after, Exception::CoprocessorError)
}

/// The effect of `Cpu::op_cop1`.
pub open spec fn spec_op_cop1(before: Cpu, after: Cpu, instr: Instruction) -> bool {
    spec_trap(before, after, Exception::CoprocessorError)
}

/// The effect of `Cpu::op_cop3`.
pub open spec fn spec_op_cop3(before: Cpu, after: Cpu, instr: Instruction) -> bool {
    spec_exception(before, after, Exception::CoprocessorError)
}

/// The effect of `Cpu::op_swc2`.
pub open spec fn spec_op_swc2(before: Cpu, after: Cpu, instr: Instruction) -> bool {
    after == before
}

/// The effect of `Cpu::op_mtc2`.
pub open spec fn spec_op_mtc2(before: Cpu, after: Cpu, instr: Instruction) -> bool {
    after == before
}

/// The effect of `Cpu::op_mfc2`.
pub open spec fn spec_op_mfc2(before: Cpu, after: Cpu, instr: Instruction) -> bool {
    &&& crate::cpu::spec_chain_post(before, spec_rt(instr), 0, after.regs@, after.load)
    &&& after.hi == before.hi && after.lo == before.lo
    &&& crate::cpu::spec_only_regs(before, after)
}

/// The effect of `Cpu::op_cfc2`.
pub open spec fn spec_op_cfc2(before: Cpu, after: Cpu, instr: Instruction, r: Result<(), CpuError>) -> bool {
    ({
        let rd = spec_rd(instr);
        if spec_control_readable(rd as u8) {
            &&& r is Ok
            &&& crate::cpu::spec_chain_post(
                before,
                spec_rt(instr),
                before.gte.spec_control(rd as u8),
                after.regs@,
                after.load,
            )
            &&& after.hi == before.hi && after.lo == before.lo
            &&& crate::cpu::spec_only_regs(before, after)
        } else {
            r == Err::<(), CpuError>(CpuError::Cop2) && after == before
        }
    })
}

/// The effect of `Cpu::op_ctc2`.
pub open spec fn spec_op_ctc2(before: Cpu, after: Cpu, instr: Instruction, r: Result<(), CpuError>) -> bool {
    &&& r == Err::<(), CpuError>(CpuError::Cop2)
    &&& spec_landed_as(before, after, before)
}

/// The effect of `Cpu::op_lwc2`.
pub open spec fn spec_op_lwc2(before: Cpu, after: Cpu, instr: Instruction, r: Result<(), CpuError>) -> bool {
    ({
        let addr = before.regs[spec_rs(instr) as int].wrapping_add(spec_imm_se(instr));
        if addr % 4 != 0 {
            r is Ok && spec_trap(before, after, Exception::LoadAddressError)
        } else {
            r == Err::<(), CpuError>(CpuError::Cop2) && spec_landed_as(before, after, before)
        }
    })
}

/// The effect of `Cpu::op_cop2`.
pub open spec fn spec_op_cop2(before: Cpu, after: Cpu, instr: Instruction, r: Result<(), CpuError>) -> bool {
    let op = (instr.0 >> 21u32) & 0x1f;
    if op & 0x10 != 0 {
        r == Err::<(), CpuError>(CpuError::Cop2) && after == before
    } else if op == 0 {
        r is Ok && spec_op_mfc2(before, after, instr)
    } else if op == 2 {
        spec_op_cfc2(before, after, instr, r)
    } else if op == 4 {
        r is Ok && spec_op_mtc2(before, after, instr)
    } else if op == 6 {
        spec_op_ctc2(before, after, instr, r)
    } else {
        r == Err::<(), CpuError>(CpuError::Cop2) && after == before
    }
}

/// The effect of `Cpu::op_mfc0`.
pub open spec fn spec_op_mfc0(before: Cpu, after: Cpu, instr: Instruction, r: Result<(), CpuError>) -> bool {
    match spec_cop0_read(before, spec_rd(instr)) {
        Some(v) => {
            &&& r is Ok
            &&& crate::cpu::spec_chain_post(before, spec_rt(instr), v, after.regs@, after.load)
            &&& after.hi == before.hi && after.lo == before.lo
            &&& crate::cpu::spec_only_regs(before, after)
        },
        None => r == Err::<(), CpuError>(CpuError::Cop0) && after == before,
    }
}

/// The effect of `Cpu::op_mtc0`.
pub open spec fn spec_op_mtc0(before: Cpu, after: Cpu, instr: Instruction, r: Result<(), CpuError>) -> bool {
    match spec_cop0_write(before, spec_rd(instr), before.regs[spec_rt(instr) as int]) {
        Some(m) => r is Ok && spec_landed_as(before, after, m),
        None => r == Err::<(), CpuError>(CpuError::Cop0) && spec_landed_as(before, after, before),
    }
}

/// The effect of `Cpu::op_rfe`.
pub open spec fn spec_op_rfe(before: Cpu, after: Cpu, instr: Instruction, r: Result<(), CpuError>) -> bool {
    if instr.0 & 0x3f == 0x10 {
        r is Ok && after == (Cpu { sr: spec_rfe_sr(before.sr), ..before })
    } else {
        r == Err::<(), CpuError>(CpuError::Cop0) && after == before
    }
}

/// The effect of `Cpu::op_cop0`.
pub open spec fn spec_op_cop0(before: Cpu, after: Cpu, instr: Instruction, r: Result<(), CpuError>) -> bool {
    let op = (instr.0 >> 21u32) & 0x1f;
    if op == 0 {
        spec_op_mfc0(before, after, instr, r)
    } else if op == 4 {
        spec_op_mtc0(before, after, instr, r)
    } else if op == 0x10 {
        spec_op_rfe(before, after, instr, r)
    } else {
        r == Err::<(), CpuError>(CpuError::Cop0) && after == before
    }
}

} // verus!
