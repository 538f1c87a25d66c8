use vstd::prelude::*;
use crate::addressable::{AccessWidth, Addressable};
use crate::gte::{spec_control_readable, Gte};
use crate::memory_bus::{spec_load_post, spec_loaded, spec_store_post, BusError, MemoryBus};
use crate::renderer::spec_tdiv;

verus! {

/// A MIPS instruction word.
#[derive(Clone, Copy, Debug)]
pub struct Instruction(pub u32);

impl Instruction {
    /// Primary opcode: bits 31..26.
    pub fn opcode(&self) -> (r: u32)
        ensures
            r == self.0 >> 26,
    {
        self.0 >> 26
    }

    /// Secondary opcode: bits 5..0.
    pub fn secondary_opcode(&self) -> (r: u32)
        ensures
            r == self.0 & 0x3f,
    {
        self.0 & 0x3f
    }

    /// Coprocessor opcode: bits 25..21.
    pub fn cop_opcode(&self) -> (r: u32)
        ensures
            r == (self.0 >> 21) & 0x1f,
    {
        (self.0 >> 21) & 0x1f
    }

    /// Register `rt`: bits 20..16.
    pub fn rt(&self) -> (r: u32)
        ensures
            r == (self.0 >> 16) & 0x1f,
            r < 32,
    {
        let c = self.0;
        proof {
            crate::bitfacts::lemma_and_le_u32(c >> 16, 0x1f);
        }
        (c >> 16) & 0x1f
    }

    /// Register `rs`: bits 25..21.
    pub fn rs(&self) -> (r: u32)
        ensures
            r == (self.0 >> 21) & 0x1f,
            r < 32,
    {
        let c = self.0;
        proof {
            crate::bitfacts::lemma_and_le_u32(c >> 21, 0x1f);
        }
        (c >> 21) & 0x1f
    }

    /// Register `rd`: bits 15..11.
    pub fn rd(&self) -> (r: u32)
        ensures
            r == (self.0 >> 11) & 0x1f,
            r < 32,
    {
        let c = self.0;
        proof {
            crate::bitfacts::lemma_and_le_u32(c >> 11, 0x1f);
        }
        (c >> 11) & 0x1f
    }

    /// Immediate: bits 15..0.
    pub fn imm(&self) -> (r: u32)
        ensures
            r == self.0 & 0xffff,
    {
        self.0 & 0xffff
    }

    /// Immediate, sign-extended to 32 bits.
    pub fn imm_se(&self) -> (r: u32)
        ensures
            r == (self.0 & 0xffff) as i16 as u32,
    {
        let v = (self.0 & 0xffff) as i16;
        v as u32
    }

    /// Shift amount: bits 10..6.
    pub fn imm5(&self) -> (r: u32)
        ensures
            r == (self.0 >> 6) & 0x1f,
            r < 32,
    {
        let c = self.0;
        proof {
            crate::bitfacts::lemma_and_le_u32(c >> 6, 0x1f);
        }
        (c >> 6) & 0x1f
    }

    /// Jump target: bits 25..0.
    pub fn imm26(&self) -> (r: u32)
        ensures
            r == self.0 & 0x3ff_ffff,
    {
        self.0 & 0x3ff_ffff
    }
}

/// Why the CPU stopped.
#[derive(Clone, Copy, PartialEq, Eq, Structural, Debug)]
pub enum CpuError {
    /// A bus access failed.
    Bus(BusError),
    /// A coprocessor 0 instruction or register that is not handled.
    Cop0,
    /// A coprocessor 2 instruction that is not handled.
    Cop2,
}

/// The exceptions the CPU raises.
#[derive(Clone, Copy, PartialEq, Eq, Structural, Debug)]
pub enum Exception {
    ExternalInterrupt,
    LoadAddressError,
    StoreAddressError,
    BusErrorOnFetch,
    SysCall,
    Break,
    IllegalInstruction,
    CoprocessorError,
    Overflow,
}

impl Exception {
    /// The exception code put in CAUSE bits 2-6.
    pub open spec fn spec_code(self) -> u32 {
        match self {
            Exception::ExternalInterrupt => 0x0,
            Exception::LoadAddressError => 0x4,
            Exception::StoreAddressError => 0x5,
            Exception::BusErrorOnFetch => 0x6,
            Exception::SysCall => 0x8,
            Exception::Break => 0x9,
            Exception::IllegalInstruction => 0xa,
            Exception::CoprocessorError => 0xb,
            Exception::Overflow => 0xc,
        }
    }

    pub fn code(self) -> (r: u32)
        ensures
            r == self.spec_code(),
    {
        match self {
            Exception::ExternalInterrupt => 0x0,
            Exception::LoadAddressError => 0x4,
            Exception::StoreAddressError => 0x5,
            Exception::BusErrorOnFetch => 0x6,
            Exception::SysCall => 0x8,
            Exception::Break => 0x9,
            Exception::IllegalInstruction => 0xa,
            Exception::CoprocessorError => 0xb,
            Exception::Overflow => 0xc,
        }
    }
}

/// The R3000A CPU: registers, the pending load, coprocessor 0 registers, the
/// GTE and the bus.
pub struct Cpu {
    pub regs: [u32; 32],
    pub hi: u32,
    pub lo: u32,
    pub pc: u32,
    pub next_pc: u32,
    pub current_pc: u32,
    pub memory_bus: MemoryBus,
    pub sr: u32,
    pub cause: u32,
    pub epc: u32,
    pub baddr: u32,
    /// The load that the current instruction started: register and value.
    pub load: (u32, u32),
    /// Set by the current instruction when it branched.
    pub branch: bool,
    /// Set when the current instruction is in a branch delay slot.
    pub delay_slot: bool,
    pub gte: Gte,
}

/// The register file `regs` after writing `v` to register `i` (register 0
/// stays 0).
pub open spec fn spec_set_reg(regs: Seq<u32>, i: u32, v: u32) -> Seq<u32> {
    regs.update(i as int, v).update(0, 0)
}

/// CPU `o` with only the listed fields changed to the given values.
pub open spec fn spec_only_regs(o: Cpu, n: Cpu) -> bool {
    &&& n.pc == o.pc && n.next_pc == o.next_pc && n.current_pc == o.current_pc
    &&& n.sr == o.sr && n.cause == o.cause && n.epc == o.epc && n.baddr == o.baddr
    &&& n.branch == o.branch && n.delay_slot == o.delay_slot
    &&& n.memory_bus == o.memory_bus && n.gte == o.gte
}

/// The register file after the pending load lands.
pub open spec fn spec_after_load(c: Cpu) -> Seq<u32> {
    spec_set_reg(c.regs@, c.load.0, c.load.1)
}

/// An instruction that writes `v` to register `d` after the pending load
/// lands.
pub open spec fn spec_alu_post(o: Cpu, n: Cpu, d: u32, v: u32) -> bool {
    &&& spec_only_regs(o, n)
    &&& n.hi == o.hi && n.lo == o.lo
    &&& n.load == (0u32, 0u32)
    &&& n.regs@ == spec_set_reg(spec_after_load(o), d, v)
}

/// An instruction that sets HI and LO after the pending load lands.
pub open spec fn spec_hilo_post(o: Cpu, n: Cpu, hi: u32, lo: u32) -> bool {
    &&& spec_only_regs(o, n)
    &&& n.hi == hi && n.lo == lo
    &&& n.load == (0u32, 0u32)
    &&& n.regs@ == spec_after_load(o)
}

/// An instruction that starts loading `v` into register `t`: a pending
/// load of another register lands now.
pub open spec fn spec_chain_post(o: Cpu, t: u32, v: u32, n_regs: Seq<u32>, n_load: (u32, u32)) -> bool {
    &&& n_load == (t, v)
    &&& n_regs == if o.load.0 != t { spec_after_load(o) } else { o.regs@ }
}

/// The CPU after exception `e`, but for the registers and the pending load:
/// the interrupt and mode bits are pushed, the cause and return address
/// recorded, and execution goes to the handler.
pub open spec fn spec_exception_core(o: Cpu, n: Cpu, e: Exception) -> bool {
    let mode = o.sr & 0x3f;
    let sr = (o.sr & !0x3fu32) | ((mode << 2u32) & 0x3f);
    let handler: u32 = if sr & 0x40_0000 != 0 { 0xbfc00180 } else { 0x80000080 };
    &&& n.sr == sr
    &&& n.cause == if o.delay_slot { (e.spec_code() << 2u32) | 0x8000_0000 } else { (e.spec_code() << 2u32) & !0x8000_0000u32 }
    &&& n.epc == if o.delay_slot { o.current_pc.wrapping_sub(4) } else { o.current_pc }
    &&& n.pc == handler && n.next_pc == handler.wrapping_add(4)
    &&& n.hi == o.hi && n.lo == o.lo
    &&& n.current_pc == o.current_pc && n.baddr == o.baddr && n.branch == o.branch && n.delay_slot == o.delay_slot
    &&& n.memory_bus == o.memory_bus && n.gte == o.gte
}

/// The CPU after exception `e`, registers untouched.
pub open spec fn spec_exception(o: Cpu, n: Cpu, e: Exception) -> bool {
    &&& spec_exception_core(o, n, e)
    &&& n.regs == o.regs && n.load == o.load
}

/// The CPU after the pending load lands and exception `e` is raised.
pub open spec fn spec_trap(o: Cpu, n: Cpu, e: Exception) -> bool {
    &&& spec_exception_core(o, n, e)
    &&& n.regs@ == spec_after_load(o) && n.load == (0u32, 0u32)
}

/// Register `rs` of an instruction.
pub open spec fn spec_rs(i: Instruction) -> u32 {
    (i.0 >> 21u32) & 0x1f
}

/// Register `rt` of an instruction.
pub open spec fn spec_rt(i: Instruction) -> u32 {
    (i.0 >> 16u32) & 0x1f
}

/// Register `rd` of an instruction.
pub open spec fn spec_rd(i: Instruction) -> u32 {
    (i.0 >> 11u32) & 0x1f
}

/// Shift amount of an instruction.
pub open spec fn spec_imm5(i: Instruction) -> u32 {
    (i.0 >> 6u32) & 0x1f
}

/// Immediate of an instruction.
pub open spec fn spec_imm(i: Instruction) -> u32 {
    i.0 & 0xffff
}

/// Sign-extended immediate of an instruction.
pub open spec fn spec_imm_se(i: Instruction) -> u32 {
    (i.0 & 0xffff) as i16 as u32
}

impl Cpu {
    pub open spec fn wf(&self) -> bool {
        &&& self.load.0 < 32
        &&& self.regs[0] == 0
        &&& self.memory_bus.wf()
    }

    /// A CPU at reset on bus `memory_bus`: registers filled with DEADBEEFh
    /// (register 0 with 0), execution at the BIOS entry point BFC00000h.
    pub fn new(memory_bus: MemoryBus) -> (r: Cpu)
        requires
            memory_bus.wf(),
        ensures
            r.wf(),
            r.regs[0] == 0,
            forall|i: int| 1 <= i < 32 ==> r.regs[i] == 0xdeadbeef,
            r.pc == 0xbfc00000 && r.next_pc == 0xbfc00004 && r.current_pc == 0xbfc00000,
            r.hi == 0xdeadbeef && r.lo == 0xdeadbeef,
            r.sr == 0 && r.cause == 0 && r.epc == 0 && r.baddr == 0,
            r.load == (0u32, 0u32) && !r.branch && !r.delay_slot,
            r.memory_bus == memory_bus,
    {
        let mut regs = [0xdeadbeefu32; 32];
        regs[0] = 0;
        Cpu {
            regs,
            hi: 0xdeadbeef,
            lo: 0xdeadbeef,
            pc: 0xBFC00000,
            next_pc: 0xBFC00004,
            current_pc: 0xBFC00000,
            memory_bus,
            sr: 0,
            cause: 0,
            epc: 0,
            baddr: 0,
            load: (0, 0),
            branch: false,
            delay_slot: false,
            gte: Gte::default(),
        }
    }

    /// Writes register `index` (register 0 stays 0).
    pub fn set_reg(&mut self, index: u32, value: u32)
        requires
            index < 32,
        ensures
            final(self).regs@ == spec_set_reg(old(self).regs@, index, value),
            final(self).hi == old(self).hi && final(self).lo == old(self).lo && final(self).load == old(self).load,
            spec_only_regs(*old(self), *final(self)),
    {
        self.regs[index as usize] = value;
        self.regs[0] = 0;
        assert(self.regs@ =~= spec_set_reg(old(self).regs@, index, value));
    }

    /// Register `index`.
    pub fn reg(&self, index: u32) -> (r: u32)
        requires
            index < 32,
        ensures
            r == self.regs[index as int],
    {
        self.regs[index as usize]
    }

    /// Lands the pending load.
    pub fn delayed_load(&mut self)
        requires
            old(self).load.0 < 32,
        ensures
            final(self).regs@ == spec_after_load(*old(self)),
            final(self).load == (0u32, 0u32),
            final(self).hi == old(self).hi && final(self).lo == old(self).lo,
            spec_only_regs(*old(self), *final(self)),
    {
        let (reg, val) = self.load;
        self.set_reg(reg, val);
        self.load = (0, 0);
    }

    /// Starts loading `val` into `reg`; a pending load of another register
    /// lands now.
    pub fn delayed_load_chain(&mut self, reg: u32, val: u32)
        requires
            old(self).load.0 < 32,
            reg < 32,
        ensures
            spec_chain_post(*old(self), reg, val, final(self).regs@, final(self).load),
            final(self).hi == old(self).hi && final(self).lo == old(self).lo,
            spec_only_regs(*old(self), *final(self)),
    {
        let (pending_reg, pending_val) = self.load;
        if pending_reg != reg {
            self.set_reg(pending_reg, pending_val);
        }
        self.load = (reg, val);
    }

    /// Writes `v` to register `d` after the pending load lands.
    fn alu(&mut self, d: u32, v: u32)
        requires
            old(self).load.0 < 32,
            d < 32,
        ensures
            spec_alu_post(*old(self), *final(self), d, v),
    {
        self.delayed_load();
        self.set_reg(d, v);
    }

    /// Raises exception `cause`.
    pub fn exception(&mut self, cause: Exception)
        ensures
            spec_exception(*old(self), *final(self), cause),
    {
        let mode = self.sr & 0x3f;
        self.sr = (self.sr & !0x3fu32) | ((mode << 2) & 0x3f);
        self.cause = cause.code() << 2;
        if self.delay_slot {
            self.epc = self.current_pc.wrapping_sub(4);
            self.cause = self.cause | 0x8000_0000;
        } else {
            self.epc = self.current_pc;
            self.cause = self.cause & !0x8000_0000u32;
        }
        let handler: u32 = if self.sr & 0x40_0000 != 0 { 0xbfc00180 } else { 0x80000080 };
        self.pc = handler;
        self.next_pc = handler.wrapping_add(4);
    }
}

impl Cpu {
    /// Shift left logical by the immediate.
    pub fn op_sll(&mut self, instr: Instruction)
        requires
            old(self).load.0 < 32,
        ensures
            spec_op_sll(*old(self), *final(self), instr),
    {
        let v = self.reg(instr.rt()) << instr.imm5();
        self.alu(instr.rd(), v);
    }

    /// Shift right logical by the immediate.
    pub fn op_srl(&mut self, instr: Instruction)
        requires
            old(self).load.0 < 32,
        ensures
            spec_op_srl(*old(self), *final(self), instr),
    {
        let v = self.reg(instr.rt()) >> instr.imm5();
        self.alu(instr.rd(), v);
    }

    /// Shift right arithmetic by the immediate.
    pub fn op_sra(&mut self, instr: Instruction)
        requires
            old(self).load.0 < 32,
        ensures
            spec_op_sra(*old(self), *final(self), instr),
    {
        let v = ((self.reg(instr.rt()) as i32) >> instr.imm5()) as u32;
        self.alu(instr.rd(), v);
    }

    /// Shift left logical by a register.
    pub fn op_sllv(&mut self, instr: Instruction)
        requires
            old(self).load.0 < 32,
        ensures
            spec_op_sllv(*old(self), *final(self), instr),
    {
        let sh = self.reg(instr.rs()) & 0x1f;
        proof {
            crate::bitfacts::lemma_and_le_u32(self.regs[spec_rs(instr) as int], 0x1f);
        }
        let v = self.reg(instr.rt()) << sh;
        self.alu(instr.rd(), v);
    }

    /// Shift right logical by a register.
    pub fn op_srlv(&mut self, instr: Instruction)
        requires
            old(self).load.0 < 32,
        ensures
            spec_op_srlv(*old(self), *final(self), instr),
    {
        let sh = self.reg(instr.rs()) & 0x1f;
        proof {
            crate::bitfacts::lemma_and_le_u32(self.regs[spec_rs(instr) as int], 0x1f);
        }
        let v = self.reg(instr.rt()) >> sh;
        self.alu(instr.rd(), v);
    }

    /// Shift right arithmetic by a register.
    pub fn op_srav(&mut self, instr: Instruction)
        requires
            old(self).load.0 < 32,
        ensures
            spec_op_srav(*old(self), *final(self), instr),
    {
        let sh = self.reg(instr.rs()) & 0x1f;
        proof {
            crate::bitfacts::lemma_and_le_u32(self.regs[spec_rs(instr) as int], 0x1f);
        }
        let v = ((self.reg(instr.rt()) as i32) >> sh) as u32;
        self.alu(instr.rd(), v);
    }

    /// Add without overflow trap.
    pub fn op_addu(&mut self, instr: Instruction)
        requires
            old(self).load.0 < 32,
        ensures
            spec_op_addu(*old(self), *final(self), instr),
    {
        let v = self.reg(instr.rs()).wrapping_add(self.reg(instr.rt()));
        self.alu(instr.rd(), v);
    }

    /// Subtract without overflow trap.
    pub fn op_subu(&mut self, instr: Instruction)
        requires
            old(self).load.0 < 32,
        ensures
            spec_op_subu(*old(self), *final(self), instr),
    {
        let v = self.reg(instr.rs()).wrapping_sub(self.reg(instr.rt()));
        self.alu(instr.rd(), v);
    }

    /// Bitwise and.
    pub fn op_and(&mut self, instr: Instruction)
        requires
            old(self).load.0 < 32,
        ensures
            spec_op_and(*old(self), *final(self), instr),
    {
        let v = self.reg(instr.rs()) & self.reg(instr.rt());
        self.alu(instr.rd(), v);
    }

    /// Bitwise or.
    pub fn op_or(&mut self, instr: Instruction)
        requires
            old(self).load.0 < 32,
        ensures
            spec_op_or(*old(self), *final(self), instr),
    {
        let v = self.reg(instr.rs()) | self.reg(instr.rt());
        self.alu(instr.rd(), v);
    }

    /// Bitwise exclusive or.
    pub fn op_xor(&mut self, instr: Instruction)
        requires
            old(self).load.0 < 32,
        ensures
            spec_op_xor(*old(self), *final(self), instr),
    {
        let v = self.reg(instr.rs()) ^ self.reg(instr.rt());
        self.alu(instr.rd(), v);
    }

    /// Bitwise not-or.
    pub fn op_nor(&mut self, instr: Instruction)
        requires
            old(self).load.0 < 32,
        ensures
            spec_op_nor(*old(self), *final(self), instr),
    {
        let v = !(self.reg(instr.rs()) | self.reg(instr.rt()));
        self.alu(instr.rd(), v);
    }

    /// Set on less than, signed.
    pub fn op_slt(&mut self, instr: Instruction)
        requires
            old(self).load.0 < 32,
        ensures
            spec_op_slt(*old(self), *final(self), instr),
    {
        let v = if (self.reg(instr.rs()) as i32) < (self.reg(instr.rt()) as i32) { 1u32 } else { 0u32 };
        self.alu(instr.rd(), v);
    }

    /// Set on less than, unsigned.
    pub fn op_sltu(&mut self, instr: Instruction)
        requires
            old(self).load.0 < 32,
        ensures
            spec_op_sltu(*old(self), *final(self), instr),
    {
        let v = if self.reg(instr.rs()) < self.reg(instr.rt()) { 1u32 } else { 0u32 };
        self.alu(instr.rd(), v);
    }

    /// Move from HI.
    pub fn op_mfhi(&mut self, instr: Instruction)
        requires
            old(self).load.0 < 32,
        ensures
            spec_op_mfhi(*old(self), *final(self), instr),
    {
        let v = self.hi;
        self.alu(instr.rd(), v);
    }

    /// Move from LO.
    pub fn op_mflo(&mut self, instr: Instruction)
        requires
            old(self).load.0 < 32,
        ensures
            spec_op_mflo(*old(self), *final(self), instr),
    {
        let v = self.lo;
        self.alu(instr.rd(), v);
    }

    /// Add immediate without overflow trap.
    pub fn op_addiu(&mut self, instr: Instruction)
        requires
            old(self).load.0 < 32,
        ensures
            spec_op_addiu(*old(self), *final(self), instr),
    {
        let v = self.reg(instr.rs()).wrapping_add(instr.imm_se());
        self.alu(instr.rt(), v);
    }

    /// Set on less than immediate, signed.
    pub fn op_slti(&mut self, instr: Instruction)
        requires
            old(self).load.0 < 32,
        ensures
            spec_op_slti(*old(self), *final(self), instr),
    {
        let v = if (self.reg(instr.rs()) as i32) < (instr.imm_se() as i32) { 1u32 } else { 0u32 };
        self.alu(instr.rt(), v);
    }

    /// Set on less than sign-extended immediate, unsigned.
    pub fn op_sltiu(&mut self, instr: Instruction)
        requires
            old(self).load.0 < 32,
        ensures
            spec_op_sltiu(*old(self), *final(self), instr),
    {
        let v = if self.reg(instr.rs()) < instr.imm_se() { 1u32 } else { 0u32 };
        self.alu(instr.rt(), v);
    }

    /// And immediate.
    pub fn op_andi(&mut self, instr: Instruction)
        requires
            old(self).load.0 < 32,
        ensures
            spec_op_andi(*old(self), *final(self), instr),
    {
        let v = self.reg(instr.rs()) & instr.imm();
        self.alu(instr.rt(), v);
    }

    /// Or immediate.
    pub fn op_ori(&mut self, instr: Instruction)
        requires
            old(self).load.0 < 32,
        ensures
            spec_op_ori(*old(self), *final(self), instr),
    {
        let v = self.reg(instr.rs()) | instr.imm();
        self.alu(instr.rt(), v);
    }

    /// Exclusive or immediate.
    pub fn op_xori(&mut self, instr: Instruction)
        requires
            old(self).load.0 < 32,
        ensures
            spec_op_xori(*old(self), *final(self), instr),
    {
        let v = self.reg(instr.rs()) ^ instr.imm();
        self.alu(instr.rt(), v);
    }

    /// Load upper immediate.
    pub fn op_lui(&mut self, instr: Instruction)
        requires
            old(self).load.0 < 32,
        ensures
            spec_op_lui(*old(self), *final(self), instr),
    {
        let v = instr.imm() << 16;
        self.alu(instr.rt(), v);
    }
}

impl Cpu {
    /// Add, trapping on signed overflow (no register is written then).
    pub fn op_add(&mut self, instr: Instruction)
        requires
            old(self).load.0 < 32,
        ensures
            spec_op_add(*old(self), *final(self), instr),
    {
        let s = self.reg(instr.rs()) as i32;
        let t = self.reg(instr.rt()) as i32;
        match s.checked_add(t) {
            Some(v) => self.alu(instr.rd(), v as u32),
            None => self.exception(Exception::Overflow),
        }
    }

    /// Add immediate, trapping on signed overflow.
    pub fn op_addi(&mut self, instr: Instruction)
        requires
            old(self).load.0 < 32,
        ensures
            spec_op_addi(*old(self), *final(self), instr),
    {
        let i = instr.imm_se() as i32;
        let s = self.reg(instr.rs()) as i32;
        match s.checked_add(i) {
            Some(v) => self.alu(instr.rt(), v as u32),
            None => self.exception(Exception::Overflow),
        }
    }

    /// Subtract, trapping on signed overflow (after the pending load lands).
    pub fn op_sub(&mut self, instr: Instruction)
        requires
            old(self).load.0 < 32,
        ensures
            spec_op_sub(*old(self), *final(self), instr),
    {
        let s = self.reg(instr.rs()) as i32;
        let t = self.reg(instr.rt()) as i32;
        let d = instr.rd();
        self.delayed_load();
        match s.checked_sub(t) {
            Some(v) => self.set_reg(d, v as u32),
            None => self.exception(Exception::Overflow),
        }
    }

    /// Move to HI.
    pub fn op_mthi(&mut self, instr: Instruction)
        requires
            old(self).load.0 < 32,
        ensures
            spec_op_mthi(*old(self), *final(self), instr),
    {
        self.delayed_load();
        self.hi = self.reg(instr.rs());
    }

    /// Move to LO.
    pub fn op_mtlo(&mut self, instr: Instruction)
        requires
            old(self).load.0 < 32,
        ensures
            spec_op_mtlo(*old(self), *final(self), instr),
    {
        self.delayed_load();
        self.lo = self.reg(instr.rs());
    }

    /// Signed multiply into HI:LO.
    pub fn op_mult(&mut self, instr: Instruction)
        requires
            old(self).load.0 < 32,
        ensures
            spec_op_mult(*old(self), *final(self), instr),
    {
        let a = (self.reg(instr.rs()) as i32) as i64;
        let b = (self.reg(instr.rt()) as i32) as i64;
        assert(-0x8000_0000 * 0x8000_0000 <= a * b <= 0x8000_0000 * 0x8000_0000) by (nonlinear_arith)
            requires
                -0x8000_0000 <= a < 0x8000_0000,
                -0x8000_0000 <= b < 0x8000_0000,
        ;
        let v = (a * b) as u64;
        self.delayed_load();
        self.hi = (v >> 32) as u32;
        self.lo = v as u32;
    }

    /// Unsigned multiply into HI:LO.
    pub fn op_multu(&mut self, instr: Instruction)
        requires
            old(self).load.0 < 32,
        ensures
            spec_op_multu(*old(self), *final(self), instr),
    {
        let a = self.reg(instr.rs()) as u64;
        let b = self.reg(instr.rt()) as u64;
        assert(a * b <= 0xffff_ffff * 0xffff_ffff) by (nonlinear_arith)
            requires
                a <= 0xffff_ffff,
                b <= 0xffff_ffff,
        ;
        let v = a * b;
        self.delayed_load();
        self.hi = (v >> 32) as u32;
        self.lo = (v & 0xffff_ffff) as u32;
        assert(v >> 32 == v / 0x1_0000_0000 && v & 0xffff_ffff == v % 0x1_0000_0000) by (bit_vector);
    }

    /// Signed divide: LO the quotient, HI the remainder, both rounded toward
    /// zero; division by zero gives -1 or 1 and the dividend, and
    /// 80000000h / -1 gives 80000000h and 0.
    pub fn op_div(&mut self, instr: Instruction)
        requires
            old(self).load.0 < 32,
        ensures
            spec_op_div(*old(self), *final(self), instr),
    {
        let n = self.reg(instr.rs()) as i32;
        let d = self.reg(instr.rt()) as i32;
        self.delayed_load();
        if d == 0 {
            self.hi = n as u32;
            self.lo = if n >= 0 { 0xffff_ffff } else { 1 };
        } else if n == i32::MIN && d == -1 {
            self.hi = 0;
            self.lo = 0x8000_0000;
        } else {
            let (q, r) = tdiv_i32(n, d);
            self.hi = r as u32;
            self.lo = q as u32;
        }
    }

    /// Unsigned divide: LO the quotient, HI the remainder; division by zero
    /// gives FFFFFFFFh and the dividend.
    pub fn op_divu(&mut self, instr: Instruction)
        requires
            old(self).load.0 < 32,
        ensures
            spec_op_divu(*old(self), *final(self), instr),
    {
        let n = self.reg(instr.rs());
        let d = self.reg(instr.rt());
        self.delayed_load();
        if d == 0 {
            self.hi = n;
            self.lo = 0xffff_ffff;
        } else {
            self.hi = n % d;
            self.lo = n / d;
        }
    }
}

/// Quotient and remainder of `n / d` rounded toward zero.
fn tdiv_i32(n: i32, d: i32) -> (r: (i32, i32))
    requires
        d != 0,
        !(n == i32::MIN && d == -1),
    ensures
        r.0 == spec_tdiv(n as int, d as int),
        r.1 == n - d * spec_tdiv(n as int, d as int),
{
    let an: u32 = if n < 0 { (-(n as i64)) as u32 } else { n as u32 };
    let ad: u32 = if d < 0 { (-(d as i64)) as u32 } else { d as u32 };
    let q: u32 = an / ad;
    let ar: u32 = an % ad;
    proof {
        lemma_div_parts(an as int, ad as int, q as int, ar as int);
    }
    let qs: i64 = if (n < 0) != (d < 0) { -(q as i64) } else { q as i64 };
    assert(-0x8000_0000 <= qs <= 0x7fff_ffff) by {
        if q > 0x7fff_ffff {
            assert(an == 0x8000_0000);
            assert(ad == 1) by (nonlinear_arith)
                requires
                    an == ad * q + ar,
                    q > 0x7fff_ffff,
                    an == 0x8000_0000,
                    ad >= 1,
                    ar >= 0,
            ;
        }
    }
    let rem: i64 = if n < 0 { -(ar as i64) } else { ar as i64 };
    proof {
        lemma_signed_remainder(n as int, d as int, an as int, ad as int, q as int, ar as int, qs as int);
    }
    (qs as i32, rem as i32)
}

/// `a == b * q + r` with `0 <= r < b` for `q`, `r` the quotient and remainder.
proof fn lemma_div_parts(a: int, b: int, q: int, r: int)
    requires
        0 <= a,
        0 < b,
        q == a / b,
        r == a % b,
    ensures
        a == b * q + r,
        0 <= r < b,
        q <= a,
{
    vstd::arithmetic::div_mod::lemma_fundamental_div_mod(a, b);
    assert(b * q >= q) by (nonlinear_arith)
        requires
            b >= 1,
            q >= 0,
    ;
}

/// The truncated remainder takes the dividend's sign.
proof fn lemma_signed_remainder(n: int, d: int, an: int, ad: int, q: int, ar: int, qs: int)
    requires
        an == (if n < 0 { -n } else { n }),
        ad == (if d < 0 { -d } else { d }),
        ad > 0,
        an == ad * q + ar,
        qs == (if (n < 0) != (d < 0) { -q } else { q }),
    ensures
        (if n < 0 { -ar } else { ar }) == n - d * qs,
{
    if n < 0 {
        if d < 0 {
            assert(d * qs == -(ad * q)) by (nonlinear_arith)
                requires
                    d == -ad,
                    qs == q,
            ;
        } else {
            assert(d * qs == -(ad * q)) by (nonlinear_arith)
                requires
                    d == ad,
                    qs == -q,
            ;
        }
    } else {
        if d < 0 {
            assert(d * qs == ad * q) by (nonlinear_arith)
                requires
                    d == -ad,
                    qs == -q,
            ;
        } else {
            assert(d * qs == ad * q) by (nonlinear_arith)
                requires
                    d == ad,
                    qs == q,
            ;
        }
    }
}

/// The effect of `Cpu::op_sll`.
pub open spec fn spec_op_sll(before: Cpu, after: Cpu, instr: Instruction) -> bool {
    spec_alu_post(before, after, spec_rd(instr), before.regs[spec_rt(instr) as int] << spec_imm5(instr))
}

/// The effect of `Cpu::op_srl`.
pub open spec fn spec_op_srl(before: Cpu, after: Cpu, instr: Instruction) -> bool {
    spec_alu_post(before, after, spec_rd(instr), before.regs[spec_rt(instr) as int] >> spec_imm5(instr))
}

/// The effect of `Cpu::op_sra`.
pub open spec fn spec_op_sra(before: Cpu, after: Cpu, instr: Instruction) -> bool {
    spec_alu_post(before, after, spec_rd(instr), ((before.regs[spec_rt(instr) as int] as i32) >> spec_imm5(instr)) as u32)
}

/// The effect of `Cpu::op_sllv`.
pub open spec fn spec_op_sllv(before: Cpu, after: Cpu, instr: Instruction) -> bool {
    spec_alu_post(before, after, spec_rd(instr), before.regs[spec_rt(instr) as int] << (before.regs[spec_rs(instr) as int] & 0x1f))
}

/// The effect of `Cpu::op_srlv`.
pub open spec fn spec_op_srlv(before: Cpu, after: Cpu, instr: Instruction) -> bool {
    spec_alu_post(before, after, spec_rd(instr), before.regs[spec_rt(instr) as int] >> (before.regs[spec_rs(instr) as int] & 0x1f))
}

/// The effect of `Cpu::op_srav`.
pub open spec fn spec_op_srav(before: Cpu, after: Cpu, instr: Instruction) -> bool {
    spec_alu_post(before, after, spec_rd(instr), ((before.regs[spec_rt(instr) as int] as i32) >> (before.regs[spec_rs(instr) as int] & 0x1f)) as u32)
}

/// The effect of `Cpu::op_addu`.
pub open spec fn spec_op_addu(before: Cpu, after: Cpu, instr: Instruction) -> bool {
    spec_alu_post(before, after, spec_rd(instr), before.regs[spec_rs(instr) as int].wrapping_add(before.regs[spec_rt(instr) as int]))
}

/// The effect of `Cpu::op_subu`.
pub open spec fn spec_op_subu(before: Cpu, after: Cpu, instr: Instruction) -> bool {
    spec_alu_post(before, after, spec_rd(instr), before.regs[spec_rs(instr) as int].wrapping_sub(before.regs[spec_rt(instr) as int]))
}

/// The effect of `Cpu::op_and`.
pub open spec fn spec_op_and(before: Cpu, after: Cpu, instr: Instruction) -> bool {
    spec_alu_post(before, after, spec_rd(instr), before.regs[spec_rs(instr) as int] & before.regs[spec_rt(instr) as int])
}

/// The effect of `Cpu::op_or`.
pub open spec fn spec_op_or(before: Cpu, after: Cpu, instr: Instruction) -> bool {
    spec_alu_post(before, after, spec_rd(instr), before.regs[spec_rs(instr) as int] | before.regs[spec_rt(instr) as int])
}

/// The effect of `Cpu::op_xor`.
pub open spec fn spec_op_xor(before: Cpu, after: Cpu, instr: Instruction) -> bool {
    spec_alu_post(before, after, spec_rd(instr), before.regs[spec_rs(instr) as int] ^ before.regs[spec_rt(instr) as int])
}

/// The effect of `Cpu::op_nor`.
pub open spec fn spec_op_nor(before: Cpu, after: Cpu, instr: Instruction) -> bool {
    spec_alu_post(before, after, spec_rd(instr), !(before.regs[spec_rs(instr) as int] | before.regs[spec_rt(instr) as int]))
}

/// The effect of `Cpu::op_slt`.
pub open spec fn spec_op_slt(before: Cpu, after: Cpu, instr: Instruction) -> bool {
    spec_alu_post(before, after, spec_rd(instr), if (before.regs[spec_rs(instr) as int] as i32) < (before.regs[spec_rt(instr) as int] as i32) { 1u32 } else { 0u32 })
}

/// The effect of `Cpu::op_sltu`.
pub open spec fn spec_op_sltu(before: Cpu, after: Cpu, instr: Instruction) -> bool {
    spec_alu_post(before, after, spec_rd(instr), if before.regs[spec_rs(instr) as int] < before.regs[spec_rt(instr) as int] { 1u32 } else { 0u32 })
}

/// The effect of `Cpu::op_mfhi`.
pub open spec fn spec_op_mfhi(before: Cpu, after: Cpu, instr: Instruction) -> bool {
    spec_alu_post(before, after, spec_rd(instr), before.hi)
}

/// The effect of `Cpu::op_mflo`.
pub open spec fn spec_op_mflo(before: Cpu, after: Cpu, instr: Instruction) -> bool {
    spec_alu_post(before, after, spec_rd(instr), before.lo)
}

/// The effect of `Cpu::op_addiu`.
pub open spec fn spec_op_addiu(before: Cpu, after: Cpu, instr: Instruction) -> bool {
    spec_alu_post(before, after, spec_rt(instr), before.regs[spec_rs(instr) as int].wrapping_add(spec_imm_se(instr)))
}

/// The effect of `Cpu::op_slti`.
pub open spec fn spec_op_slti(before: Cpu, after: Cpu, instr: Instruction) -> bool {
    spec_alu_post(before, after, spec_rt(instr), if (before.regs[spec_rs(instr) as int] as i32) < (spec_imm_se(instr) as i32) { 1u32 } else { 0u32 })
}

/// The effect of `Cpu::op_sltiu`.
pub open spec fn spec_op_sltiu(before: Cpu, after: Cpu, instr: Instruction) -> bool {
    spec_alu_post(before, after, spec_rt(instr), if before.regs[spec_rs(instr) as int] < spec_imm_se(instr) { 1u32 } else { 0u32 })
}

/// The effect of `Cpu::op_andi`.
pub open spec fn spec_op_andi(before: Cpu, after: Cpu, instr: Instruction) -> bool {
    spec_alu_post(before, after, spec_rt(instr), before.regs[spec_rs(instr) as int] & spec_imm(instr))
}

/// The effect of `Cpu::op_ori`.
pub open spec fn spec_op_ori(before: Cpu, after: Cpu, instr: Instruction) -> bool {
    spec_alu_post(before, after, spec_rt(instr), before.regs[spec_rs(instr) as int] | spec_imm(instr))
}

/// The effect of `Cpu::op_xori`.
pub open spec fn spec_op_xori(before: Cpu, after: Cpu, instr: Instruction) -> bool {
    spec_alu_post(before, after, spec_rt(instr), before.regs[spec_rs(instr) as int] ^ spec_imm(instr))
}

/// The effect of `Cpu::op_lui`.
pub open spec fn spec_op_lui(before: Cpu, after: Cpu, instr: Instruction) -> bool {
    spec_alu_post(before, after, spec_rt(instr), (spec_imm(instr) << 16u32) as u32)
}

/// The effect of `Cpu::op_add`.
pub open spec fn spec_op_add(before: Cpu, after: Cpu, instr: Instruction) -> bool {
    ({
        let sum = (before.regs[spec_rs(instr) as int] as i32) + (before.regs[spec_rt(instr) as int] as i32);
        if i32::MIN <= sum <= i32::MAX {
            spec_alu_post(before, after, spec_rd(instr), sum as i32 as u32)
        } else {
            spec_exception(before, after, Exception::Overflow)
        }
    })
}

/// The effect of `Cpu::op_addi`.
pub open spec fn spec_op_addi(before: Cpu, after: Cpu, instr: Instruction) -> bool {
    ({
        let sum = (before.regs[spec_rs(instr) as int] as i32) + (spec_imm_se(instr) as i32);
        if i32::MIN <= sum <= i32::MAX {
            spec_alu_post(before, after, spec_rt(instr), sum as i32 as u32)
        } else {
            spec_exception(before, after, Exception::Overflow)
        }
    })
}

/// The effect of `Cpu::op_sub`.
pub open spec fn spec_op_sub(before: Cpu, after: Cpu, instr: Instruction) -> bool {
    ({
        let diff = (before.regs[spec_rs(instr) as int] as i32) - (before.regs[spec_rt(instr) as int] as i32);
        if i32::MIN <= diff <= i32::MAX {
            spec_alu_post(before, after, spec_rd(instr), diff as i32 as u32)
        } else {
            spec_trap(before, after, Exception::Overflow)
        }
    })
}

/// The effect of `Cpu::op_mthi`.
pub open spec fn spec_op_mthi(before: Cpu, after: Cpu, instr: Instruction) -> bool {
    spec_hilo_post(before, after, spec_after_load(before)[spec_rs(instr) as int], before.lo)
}

/// The effect of `Cpu::op_mtlo`.
pub open spec fn spec_op_mtlo(before: Cpu, after: Cpu, instr: Instruction) -> bool {
    spec_hilo_post(before, after, before.hi, spec_after_load(before)[spec_rs(instr) as int])
}

/// The effect of `Cpu::op_mult`.
pub open spec fn spec_op_mult(before: Cpu, after: Cpu, instr: Instruction) -> bool {
    ({
        let p = ((before.regs[spec_rs(instr) as int] as i32 as int) * (before.regs[spec_rt(instr) as int] as i32
            as int)) as u64;
        spec_hilo_post(before, after, (p >> 32u64) as u32, p as u32)
    })
}

/// The effect of `Cpu::op_multu`.
pub open spec fn spec_op_multu(before: Cpu, after: Cpu, instr: Instruction) -> bool {
    ({
        let p = (before.regs[spec_rs(instr) as int] as int) * (before.regs[spec_rt(instr) as int] as int);
        spec_hilo_post(before, after, (p / 0x1_0000_0000) as u32, (p % 0x1_0000_0000) as u32)
    })
}

/// The effect of `Cpu::op_div`.
pub open spec fn spec_op_div(before: Cpu, after: Cpu, instr: Instruction) -> bool {
    ({
        let n = before.regs[spec_rs(instr) as int] as i32;
        let d = before.regs[spec_rt(instr) as int] as i32;
        if d == 0 {
            spec_hilo_post(before, after, n as u32, if n >= 0 { 0xffff_ffffu32 } else { 1u32 })
        } else if n == i32::MIN && d == -1 {
            spec_hilo_post(before, after, 0, 0x8000_0000)
        } else {
            let q = spec_tdiv(n as int, d as int);
            spec_hilo_post(before, after, (n - d * q) as i32 as u32, q as i32 as u32)
        }
    })
}

/// The effect of `Cpu::op_divu`.
pub open spec fn spec_op_divu(before: Cpu, after: Cpu, instr: Instruction) -> bool {
    ({
        let n = before.regs[spec_rs(instr) as int];
        let d = before.regs[spec_rt(instr) as int];
        if d == 0 {
            spec_hilo_post(before, after, n, 0xffff_ffff)
        } else {
            spec_hilo_post(before, after, n % d, n / d)
        }
    })
}

} // verus!
