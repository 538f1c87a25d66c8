use vstd::prelude::*;
use crate::addressable::AccessWidth;
use crate::memory_bus::{spec_load_post, BusError, MemoryBus};
use crate::cpu::{spec_after_load, spec_exception, spec_rd, spec_rs, spec_rt, Cpu, CpuError, Exception, Instruction, spec_op_add, spec_op_addi, spec_op_addiu, spec_op_addu, spec_op_and, spec_op_andi, spec_op_div, spec_op_divu, spec_op_lui, spec_op_mfhi, spec_op_mflo, spec_op_mthi, spec_op_mtlo, spec_op_mult, spec_op_multu, spec_op_nor, spec_op_or, spec_op_ori, spec_op_sll, spec_op_sllv, spec_op_slt, spec_op_slti, spec_op_sltiu, spec_op_sltu, spec_op_sra, spec_op_srav, spec_op_srl, spec_op_srlv, spec_op_sub, spec_op_subu, spec_op_xor, spec_op_xori};
use crate::cpu_flow::{spec_op_beq, spec_op_bgtz, spec_op_blez, spec_op_bne, spec_op_break, spec_op_bxx, spec_op_cop0, spec_op_cop1, spec_op_cop2, spec_op_cop3, spec_op_illegal, spec_op_j, spec_op_jal, spec_op_jalr, spec_op_jr, spec_op_lwc0, spec_op_lwc1, spec_op_lwc2, spec_op_lwc3, spec_op_swc0, spec_op_swc1, spec_op_swc2, spec_op_swc3, spec_op_syscall};
use crate::cpu_mem::{spec_op_lb, spec_op_lbu, spec_op_lh, spec_op_lhu, spec_op_lw, spec_op_lwl, spec_op_lwr, spec_op_sb, spec_op_sh, spec_op_sw, spec_op_swl, spec_op_swr};

verus! {

/// The effect of an instruction with primary opcode 0, selected by its
/// function field.
#[verifier::opaque]
pub open spec fn spec_execute_special(before: Cpu, after: Cpu, instr: Instruction, r: Result<(), CpuError>) -> bool {
    let f = instr.0 & 0x3f;

    if f == 0x00 {
        r is Ok && spec_op_sll(before, after, instr)
    } else if f == 0x02 {
        r is Ok && spec_op_srl(before, after, instr)
    } else if f == 0x03 {
        r is Ok && spec_op_sra(before, after, instr)
    } else if f == 0x04 {
        r is Ok && spec_op_sllv(before, after, instr)
    } else if f == 0x06 {
        r is Ok && spec_op_srlv(before, after, instr)
    } else if f == 0x07 {
        r is Ok && spec_op_srav(before, after, instr)
    } else if f == 0x08 {
        r is Ok && spec_op_jr(before, after, instr)
    } else if f == 0x09 {
        r is Ok && spec_op_jalr(before, after, instr)
    } else if f == 0x0c {
        r is Ok && spec_op_syscall(before, after, instr)
    } else if f == 0x0d {
        r is Ok && spec_op_break(before, after, instr)
    } else if f == 0x10 {
        r is Ok && spec_op_mfhi(before, after, instr)
    } else if f == 0x11 {
        r is Ok && spec_op_mthi(before, after, instr)
    } else if f == 0x12 {
        r is Ok && spec_op_mflo(before, after, instr)
    } else if f == 0x13 {
        r is Ok && spec_op_mtlo(before, after, instr)
    } else if f == 0x18 {
        r is Ok && spec_op_mult(before, after, instr)
    } else if f == 0x19 {
        r is Ok && spec_op_multu(before, after, instr)
    } else if f == 0x1a {
        r is Ok && spec_op_div(before, after, instr)
    } else if f == 0x1b {
        r is Ok && spec_op_divu(before, after, instr)
    } else if f == 0x20 {
        r is Ok && spec_op_add(before, after, instr)
    } else if f == 0x21 {
        r is Ok && spec_op_addu(before, after, instr)
    } else if f == 0x22 {
        r is Ok && spec_op_sub(before, after, instr)
    } else if f == 0x23 {
        r is Ok && spec_op_subu(before, after, instr)
    } else if f == 0x24 {
        r is Ok && spec_op_and(before, after, instr)
    } else if f == 0x25 {
        r is Ok && spec_op_or(before, after, instr)
    } else if f == 0x26 {
        r is Ok && spec_op_xor(before, after, instr)
    } else if f == 0x27 {
        r is Ok && spec_op_nor(before, after, instr)
    } else if f == 0x2a {
        r is Ok && spec_op_slt(before, after, instr)
    } else if f == 0x2b {
        r is Ok && spec_op_sltu(before, after, instr)
    } else {
        r is Ok && spec_op_illegal(before, after, instr)
    }
}

/// The effect of executing `instr`, selected by its primary opcode; an
/// unknown opcode raises an illegal instruction exception.
#[verifier::opaque]
pub open spec fn spec_execute(before: Cpu, after: Cpu, instr: Instruction, r: Result<(), CpuError>) -> bool {
    let op = instr.0 >> 26u32;
    if op == 0 {
        spec_execute_special(before, after, instr, r)
    } else if op == 0x01 {
        r is Ok && spec_op_bxx(before, after, instr)
    } else if op == 0x02 {
        r is Ok && spec_op_j(before, after, instr)
    } else if op == 0x03 {
        r is Ok && spec_op_jal(before, after, instr)
    } else if op == 0x04 {
        r is Ok && spec_op_beq(before, after, instr)
    } else if op == 0x05 {
        r is Ok && spec_op_bne(before, after, instr)
    } else if op == 0x06 {
        r is Ok && spec_op_blez(before, after, instr)
    } else if op == 0x07 {
        r is Ok && spec_op_bgtz(before, after, instr)
    } else if op == 0x08 {
        r is Ok && spec_op_addi(before, after, instr)
    } else if op == 0x09 {
        r is Ok && spec_op_addiu(before, after, instr)
    } else if op == 0x0a {
        r is Ok && spec_op_slti(before, after, instr)
    } else if op == 0x0b {
        r is Ok && spec_op_sltiu(before, after, instr)
    } else if op == 0x0c {
        r is Ok && spec_op_andi(before, after, instr)
    } else if op == 0x0d {
        r is Ok && spec_op_ori(before, after, instr)
    } else if op == 0x0e {
        r is Ok && spec_op_xori(before, after, instr)
    } else if op == 0x0f {
        r is Ok && spec_op_lui(before, after, instr)
    } else if op == 0x10 {
        spec_op_cop0(before, after, instr, r)
    } else if op == 0x11 {
        r is Ok && spec_op_cop1(before, after, instr)
    } else if op == 0x12 {
        spec_op_cop2(before, after, instr, r)
    } else if op == 0x13 {
        r is Ok && spec_op_cop3(before, after, instr)
    } else if op == 0x20 {
        spec_op_lb(before, after, instr, r)
    } else if op == 0x21 {
        spec_op_lh(before, after, instr, r)
    } else if op == 0x22 {
        spec_op_lwl(before, after, instr, r)
    } else if op == 0x23 {
        spec_op_lw(before, after, instr, r)
    } else if op == 0x24 {
        spec_op_lbu(before, after, instr, r)
    } else if op == 0x25 {
        spec_op_lhu(before, after, instr, r)
    } else if op == 0x26 {
        spec_op_lwr(before, after, instr, r)
    } else if op == 0x28 {
        spec_op_sb(before, after, instr, r)
    } else if op == 0x29 {
        spec_op_sh(before, after, instr, r)
    } else if op == 0x2a {
        spec_op_swl(before, after, instr, r)
    } else if op == 0x2b {
        spec_op_sw(before, after, instr, r)
    } else if op == 0x2e {
        spec_op_swr(before, after, instr, r)
    } else if op == 0x30 {
        r is Ok && spec_op_lwc0(before, after, instr)
    } else if op == 0x31 {
        r is Ok && spec_op_lwc1(before, after, instr)
    } else if op == 0x32 {
        spec_op_lwc2(before, after, instr, r)
    } else if op == 0x33 {
        r is Ok && spec_op_lwc3(before, after, instr)
    } else if op == 0x38 {
        r is Ok && spec_op_swc0(before, after, instr)
    } else if op == 0x39 {
        r is Ok && spec_op_swc1(before, after, instr)
    } else if op == 0x3a {
        r is Ok && spec_op_swc2(before, after, instr)
    } else if op == 0x3b {
        r is Ok && spec_op_swc3(before, after, instr)
    } else {
        r is Ok && spec_op_illegal(before, after, instr)
    }
}

impl Cpu {
    /// Executes an instruction with primary opcode 0.
    fn execute_special(&mut self, instr: Instruction) -> (r: Result<(), CpuError>)
        requires
            old(self).wf(),
            instr.0 >> 26u32 == 0,
        ensures
            final(self).wf(),
            spec_execute_special(*old(self), *final(self), instr, r),
    {
        proof {
            lemma_fields_in_range(instr);
            reveal(spec_execute_special);
        }
        match instr.secondary_opcode() {
            0x00 => {
                self.op_sll(instr);
                Ok(())
            },
            0x02 => {
                self.op_srl(instr);
                Ok(())
            },
            0x03 => {
                self.op_sra(instr);
                Ok(())
            },
            0x04 => {
                self.op_sllv(instr);
                Ok(())
            },
            0x06 => {
                self.op_srlv(instr);
                Ok(())
            },
            0x07 => {
                self.op_srav(instr);
                Ok(())
            },
            0x08 => {
                self.op_jr(instr);
                Ok(())
            },
            0x09 => {
                self.op_jalr(instr);
                Ok(())
            },
            0x0c => {
                self.op_syscall(instr);
                Ok(())
            },
            0x0d => {
                self.op_break(instr);
                Ok(())
            },
            0x10 => {
                self.op_mfhi(instr);
                Ok(())
            },
            0x11 => {
                self.op_mthi(instr);
                Ok(())
            },
            0x12 => {
                self.op_mflo(instr);
                Ok(())
            },
            0x13 => {
                self.op_mtlo(instr);
                Ok(())
            },
            0x18 => {
                self.op_mult(instr);
                Ok(())
            },
            0x19 => {
                self.op_multu(instr);
                Ok(())
            },
            0x1a => {
                self.op_div(instr);
                Ok(())
            },
            0x1b => {
                self.op_divu(instr);
                Ok(())
            },
            0x20 => {
                self.op_add(instr);
                Ok(())
            },
            0x21 => {
                self.op_addu(instr);
                Ok(())
            },
            0x22 => {
                self.op_sub(instr);
                Ok(())
            },
            0x23 => {
                self.op_subu(instr);
                Ok(())
            },
            0x24 => {
                self.op_and(instr);
                Ok(())
            },
            0x25 => {
                self.op_or(instr);
                Ok(())
            },
            0x26 => {
                self.op_xor(instr);
                Ok(())
            },
            0x27 => {
                self.op_nor(instr);
                Ok(())
            },
            0x2a => {
                self.op_slt(instr);
                Ok(())
            },
            0x2b => {
                self.op_sltu(instr);
                Ok(())
            },
            _ => {
                self.op_illegal(instr);
                Ok(())
            },
        }
    }

    /// Decodes and executes one instruction.
    pub fn decode_and_execute(&mut self, instr: Instruction) -> (r: Result<(), CpuError>)
        requires
            old(self).wf(),
        ensures
            final(self).wf(),
            spec_execute(*old(self), *final(self), instr, r),
    {
        proof {
            lemma_fields_in_range(instr);
            reveal(spec_execute);
            reveal(spec_execute_special);
        }
        match instr.opcode() {
            0x00 => self.execute_special(instr),
            0x01 => {
                self.op_bxx(instr);
                Ok(())
            },
            0x02 => {
                self.op_j(instr);
                Ok(())
            },
            0x03 => {
                self.op_jal(instr);
                Ok(())
            },
            0x04 => {
                self.op_beq(instr);
                Ok(())
            },
            0x05 => {
                self.op_bne(instr);
                Ok(())
            },
            0x06 => {
                self.op_blez(instr);
                Ok(())
            },
            0x07 => {
                self.op_bgtz(instr);
                Ok(())
            },
            0x08 => {
                self.op_addi(instr);
                Ok(())
            },
            0x09 => {
                self.op_addiu(instr);
                Ok(())
            },
            0x0a => {
                self.op_slti(instr);
                Ok(())
            },
            0x0b => {
                self.op_sltiu(instr);
                Ok(())
            },
            0x0c => {
                self.op_andi(instr);
                Ok(())
            },
            0x0d => {
                self.op_ori(instr);
                Ok(())
            },
            0x0e => {
                self.op_xori(instr);
                Ok(())
            },
            0x0f => {
                self.op_lui(instr);
                Ok(())
            },
            0x10 => self.op_cop0(instr),
            0x11 => {
                self.op_cop1(instr);
                Ok(())
            },
            0x12 => self.op_cop2(instr),
            0x13 => {
                self.op_cop3(instr);
                Ok(())
            },
            0x20 => self.op_lb(instr),
            0x21 => self.op_lh(instr),
            0x22 => self.op_lwl(instr),
            0x23 => self.op_lw(instr),
            0x24 => self.op_lbu(instr),
            0x25 => self.op_lhu(instr),
            0x26 => self.op_lwr(instr),
            0x28 => self.op_sb(instr),
            0x29 => self.op_sh(instr),
            0x2a => self.op_swl(instr),
            0x2b => self.op_sw(instr),
            0x2e => self.op_swr(instr),
            0x30 => {
                self.op_lwc0(instr);
                Ok(())
            },
            0x31 => {
                self.op_lwc1(instr);
                Ok(())
            },
            0x32 => self.op_lwc2(instr),
            0x33 => {
                self.op_lwc3(instr);
                Ok(())
            },
            0x38 => {
                self.op_swc0(instr);
                Ok(())
            },
            0x39 => {
                self.op_swc1(instr);
                Ok(())
            },
            0x3a => {
                self.op_swc2(instr);
                Ok(())
            },
            0x3b => {
                self.op_swc3(instr);
                Ok(())
            },
            _ => {
                self.op_illegal(instr);
                Ok(())
            },
        }
    }
}

/// CAUSE with bit 10 following the interrupt controller: set while an
/// unmasked interrupt is raised.
pub open spec fn spec_irq_cause(c: Cpu) -> u32 {
    if c.memory_bus.irqctl.status.0 & c.memory_bus.irqctl.mask != 0 {
        c.cause | 0x400
    } else {
        c.cause & !0x400u32
    }
}

/// The CPU once CAUSE bit 10 follows the interrupt controller.
pub open spec fn spec_irq_checked(c: Cpu) -> Cpu {
    Cpu { cause: spec_irq_cause(c), ..c }
}

/// Whether an interrupt is taken: a pending one enabled in SR bits 8-10,
/// with interrupts enabled in SR bit 0.
pub open spec fn spec_irq_pending(c: Cpu) -> bool {
    (c.cause & c.sr) & 0x700 != 0 && c.sr & 1 != 0
}

/// Whether an instruction word is a GTE command.
pub open spec fn spec_is_gte(w: u32) -> bool {
    w & 0xfe00_0000 == 0x4a00_0000
}

/// The bookkeeping at the start of a step, the instruction fetched over the
/// bus leaving it as `bus`: the pending load lands, the program counters
/// move on, and the instruction is in a delay slot if the last one branched.
pub open spec fn spec_begin(o: Cpu, bus: MemoryBus, c: Cpu) -> bool {
    &&& c == (Cpu {
        regs: c.regs,
        load: (0u32, 0u32),
        current_pc: o.pc,
        pc: o.next_pc,
        next_pc: o.next_pc.wrapping_add(4),
        delay_slot: o.branch,
        branch: false,
        memory_bus: bus,
        ..o
    })
    &&& c.regs@ == spec_after_load(o)
}

/// A step from `d` (after the interrupt check) running instruction `i`: an
/// interrupt is taken after the instruction, or in its place unless it is a
/// GTE command outside a delay slot.
pub open spec fn spec_step_from(d: Cpu, n: Cpu, i: Instruction, r: Result<(), CpuError>) -> bool {
    if !spec_irq_pending(d) {
        spec_execute(d, n, i, r)
    } else if spec_is_gte(i.0) && !d.delay_slot {
        exists|e: Cpu|
            #[trigger] spec_execute(d, e, i, r) && if r is Ok {
                spec_exception(e, n, Exception::ExternalInterrupt)
            } else {
                n == e
            }
    } else {
        r is Ok && spec_exception(d, n, Exception::ExternalInterrupt)
    }
}

/// One CPU step: a misaligned PC raises a load address error; otherwise the
/// instruction at PC is fetched and run.
pub open spec fn spec_step(o: Cpu, n: Cpu, r: Result<(), CpuError>) -> bool {
    if o.pc & 3 != 0 {
        r is Ok && spec_exception(o, n, Exception::LoadAddressError)
    } else {
        exists|lr: Result<u32, BusError>, c: Cpu|
            #[trigger] spec_load_post(o.memory_bus, c.memory_bus, o.pc, AccessWidth::Word, lr) && match lr {
                Ok(w) => spec_begin(o, c.memory_bus, c) && spec_step_from(spec_irq_checked(c), n, Instruction(w), r),
                Err(e) => r == Err::<(), CpuError>(CpuError::Bus(e)) && n == (Cpu { memory_bus: c.memory_bus, ..o }),
            }
    }
}

impl Cpu {
    /// Sets CAUSE bit 10 from the interrupt controller and tells whether an
    /// interrupt is to be taken.
    pub fn check_for_pending_interrupts(&mut self) -> (r: bool)
        ensures
            *final(self) == spec_irq_checked(*old(self)),
            r == spec_irq_pending(*final(self)),
    {
        if self.memory_bus.irqctl.pending() {
            self.cause = self.cause | 0x400;
        } else {
            self.cause = self.cause & !0x400u32;
        }
        (self.cause & self.sr) & 0x700 != 0 && self.sr & 1 != 0
    }

    /// The character the BIOS is asked to print, if the CPU is at the entry
    /// of its `putchar` (A0h function 3Ch or B0h function 3Dh): the low byte
    /// of R4.
    pub fn check_for_tty_output(&self) -> (r: Option<u8>)
        ensures
            r == (if ((self.pc & 0x1fff_ffff) == 0xa0 && self.regs[9] == 0x3c) || ((self.pc & 0x1fff_ffff) == 0xb0
                && self.regs[9] == 0x3d) {
                Some(self.regs[4] as u8)
            } else {
                None
            }),
    {
        let pc = self.pc & 0x1fff_ffff;
        if (pc == 0xa0 && self.regs[9] == 0x3c) || (pc == 0xb0 && self.regs[9] == 0x3d) {
            Some(self.regs[4] as u8)
        } else {
            None
        }
    }

    /// Runs one instruction: fetches it at PC, lands the pending load, moves
    /// the program counters on, checks for interrupts and executes it.
    pub fn run_next_instruction(&mut self) -> (r: Result<(), CpuError>)
        requires
            old(self).wf(),
        ensures
            final(self).wf(),
            spec_step(*old(self), *final(self), r),
    {
        let ghost o = *self;
        if self.pc & 3 != 0 {
            self.exception(Exception::LoadAddressError);
            return Ok(());
        }
        let pc = self.pc;
        let word = match self.load::<u32>(pc) {
            Ok(w) => w,
            Err(e) => {
                assert(spec_load_post(o.memory_bus, self.memory_bus, o.pc, AccessWidth::Word, Err::<u32, BusError>(e)));
                return Err(CpuError::Bus(e));
            },
        };
        let ghost fetched = self.memory_bus;
        let instr = Instruction(word);
        self.current_pc = self.pc;
        self.pc = self.next_pc;
        self.next_pc = self.next_pc.wrapping_add(4);
        self.delayed_load();
        self.delay_slot = self.branch;
        self.branch = false;
        let ghost c = *self;
        assert(spec_begin(o, fetched, c));
        let res = self.step_fetched(instr);
        assert(spec_load_post(o.memory_bus, c.memory_bus, o.pc, AccessWidth::Word, Ok::<u32, BusError>(word)));
        res
    }

    /// The rest of a step once the instruction is fetched: the interrupt
    /// check and the instruction.
    fn step_fetched(&mut self, instr: Instruction) -> (r: Result<(), CpuError>)
        requires
            old(self).wf(),
        ensures
            final(self).wf(),
            spec_step_from(spec_irq_checked(*old(self)), *final(self), instr, r),
    {
        let is_gte = instr.0 & 0xfe00_0000 == 0x4a00_0000;
        let pending = self.check_for_pending_interrupts();
        let ghost d = *self;
        if !pending {
            return self.decode_and_execute(instr);
        }
        if is_gte && !self.delay_slot {
            let res = self.decode_and_execute(instr);
            let ghost e = *self;
            if res.is_err() {
                assert(spec_execute(d, e, instr, res));
                return res;
            }
            self.exception(Exception::ExternalInterrupt);
            assert(spec_execute(d, e, instr, res));
            return res;
        }
        self.exception(Exception::ExternalInterrupt);
        Ok(())
    }
}

/// The register fields of an instruction name one of the 32 registers.
pub proof fn lemma_fields_in_range(i: Instruction)
    ensures
        spec_rs(i) < 32,
        spec_rt(i) < 32,
        spec_rd(i) < 32,
{
    crate::bitfacts::lemma_and_le_u32(i.0 >> 21u32, 0x1f);
    crate::bitfacts::lemma_and_le_u32(i.0 >> 16u32, 0x1f);
    crate::bitfacts::lemma_and_le_u32(i.0 >> 11u32, 0x1f);
}

} // verus!
