use vstd::prelude::*;
use crate::addressable::{AccessWidth, Addressable};
use crate::cpu::{spec_after_load, spec_chain_post, spec_imm_se, spec_rs, spec_rt, spec_trap, Cpu, CpuError, Exception, Instruction};
use crate::memory_bus::{spec_load_post, spec_loaded, spec_store_post, BusError, MemoryBus};

verus! {

/// A loaded value widened to 32 bits: sign-extended for LB and LH,
/// zero-extended otherwise.
pub open spec fn spec_extend(v: u32, w: AccessWidth, signed: bool) -> u32 {
    if signed {
        match w {
            AccessWidth::Byte => v as u8 as i8 as u32,
            AccessWidth::Halfword => v as u16 as i16 as u32,
            AccessWidth::Word => v,
        }
    } else {
        v
    }
}

/// The bus part of a CPU result.
pub open spec fn spec_bus_part(r: Result<(), CpuError>) -> Result<(), BusError> {
    match r {
        Ok(u) => Ok(u),
        Err(CpuError::Bus(e)) => Err(e),
        Err(_) => Err(BusError::Device),
    }
}

/// A CPU store of `v` at `addr`: ignored while SR bit 16 isolates the
/// cache, else what the bus does with it.
pub open spec fn spec_cpu_store(sr: u32, ob: MemoryBus, nb: MemoryBus, addr: u32, w: AccessWidth, v: u32, r: Result<(), CpuError>) -> bool {
    if sr & 0x1_0000 != 0 {
        r is Ok && nb == ob
    } else {
        &&& spec_store_post(ob, nb, addr, w, v, spec_bus_part(r))
        &&& (r is Ok || r matches Err(CpuError::Bus(_)))
    }
}

/// A load of width `w` from `addr` into register `t`: on success the value
/// goes to the pending load (a pending load of another register lands);
/// on a bus error only the bus's own state may have changed.
pub open spec fn spec_load_op(o: Cpu, n: Cpu, addr: u32, w: AccessWidth, signed: bool, t: u32, r: Result<(), CpuError>) -> bool {
    exists|lr: Result<u32, BusError>|
        #[trigger] spec_load_post(o.memory_bus, n.memory_bus, addr, w, lr) && match lr {
            Ok(v) => {
                &&& r is Ok
                &&& spec_chain_post(o, t, spec_extend(v, w, signed), n.regs@, n.load)
                &&& n == (Cpu { regs: n.regs, load: n.load, memory_bus: n.memory_bus, ..o })
            },
            Err(e) => r == Err::<(), CpuError>(CpuError::Bus(e)) && n == (Cpu { memory_bus: n.memory_bus, ..o }),
        }
}

/// A store of width `w` of `v` at `addr` after the pending load lands.
pub open spec fn spec_store_op(o: Cpu, n: Cpu, addr: u32, w: AccessWidth, v: u32, r: Result<(), CpuError>) -> bool {
    &&& n == (Cpu { regs: n.regs, load: (0u32, 0u32), memory_bus: n.memory_bus, ..o })
    &&& n.regs@ == spec_after_load(o)
    &&& spec_cpu_store(o.sr, o.memory_bus, n.memory_bus, addr, w, v, r)
}

/// The effective address of a load or store.
pub open spec fn spec_addr(c: Cpu, i: Instruction) -> u32 {
    c.regs[spec_rs(i) as int].wrapping_add(spec_imm_se(i))
}

/// LWL: the bytes of `word` from the addressed one down to the word's
/// start, merged into the top of `cur`.
pub open spec fn spec_lwl(cur: u32, word: u32, k: u32) -> u32 {
    if k == 0 {
        (cur & 0x00ff_ffff) | (word << 24u32)
    } else if k == 1 {
        (cur & 0x0000_ffff) | (word << 16u32)
    } else if k == 2 {
        (cur & 0x0000_00ff) | (word << 8u32)
    } else {
        word
    }
}

/// LWR: the bytes of `word` from the addressed one up to the word's end,
/// merged into the bottom of `cur`.
pub open spec fn spec_lwr(cur: u32, word: u32, k: u32) -> u32 {
    if k == 0 {
        word
    } else if k == 1 {
        (cur & 0xff00_0000) | (word >> 8u32)
    } else if k == 2 {
        (cur & 0xffff_0000) | (word >> 16u32)
    } else {
        (cur & 0xffff_ff00) | (word >> 24u32)
    }
}

/// SWL: the top bytes of `v` written from the addressed byte down.
pub open spec fn spec_swl(mem: u32, v: u32, k: u32) -> u32 {
    if k == 0 {
        (mem & 0xffff_ff00) | (v >> 24u32)
    } else if k == 1 {
        (mem & 0xffff_0000) | (v >> 16u32)
    } else if k == 2 {
        (mem & 0xff00_0000) | (v >> 8u32)
    } else {
        v
    }
}

/// SWR: the bottom bytes of `v` written from the addressed byte up.
pub open spec fn spec_swr(mem: u32, v: u32, k: u32) -> u32 {
    if k == 0 {
        v
    } else if k == 1 {
        (mem & 0x0000_00ff) | (v << 8u32)
    } else if k == 2 {
        (mem & 0x0000_ffff) | (v << 16u32)
    } else {
        (mem & 0x00ff_ffff) | (v << 24u32)
    }
}

/// The value LWL or LWR merges into: the pending load's value where it
/// targets the same register.
pub open spec fn spec_merge_base(c: Cpu, t: u32) -> u32 {
    if c.load.0 == t { c.load.1 } else { c.regs[t as int] }
}

/// LWL or LWR: a word load at the aligned address, merged by `merge`.
pub open spec fn spec_unaligned_load(o: Cpu, n: Cpu, i: Instruction, left: bool, r: Result<(), CpuError>) -> bool {
    let addr = spec_addr(o, i);
    let t = spec_rt(i);
    exists|lr: Result<u32, BusError>|
        #[trigger] spec_load_post(o.memory_bus, n.memory_bus, addr & !3u32, AccessWidth::Word, lr) && match lr {
            Ok(word) => {
                let v = if left {
                    spec_lwl(spec_merge_base(o, t), word, addr & 3)
                } else {
                    spec_lwr(spec_merge_base(o, t), word, addr & 3)
                };
                &&& r is Ok
                &&& spec_chain_post(o, t, v, n.regs@, n.load)
                &&& n == (Cpu { regs: n.regs, load: n.load, memory_bus: n.memory_bus, ..o })
            },
            Err(e) => r == Err::<(), CpuError>(CpuError::Bus(e)) && n == (Cpu { memory_bus: n.memory_bus, ..o }),
        }
}

/// SWL or SWR: the aligned word is read, merged with register `rt` and
/// written back after the pending load lands.
pub open spec fn spec_unaligned_store(o: Cpu, n: Cpu, i: Instruction, left: bool, r: Result<(), CpuError>) -> bool {
    let addr = spec_addr(o, i);
    let v = o.regs[spec_rt(i) as int];
    exists|mid: MemoryBus, lr: Result<u32, BusError>|
        #[trigger] spec_load_post(o.memory_bus, mid, addr & !3u32, AccessWidth::Word, lr) && match lr {
            Ok(mem) => {
                let merged = if left { spec_swl(mem, v, addr & 3) } else { spec_swr(mem, v, addr & 3) };
                &&& n == (Cpu { regs: n.regs, load: (0u32, 0u32), memory_bus: n.memory_bus, ..o })
                &&& n.regs@ == spec_after_load(o)
                &&& spec_cpu_store(o.sr, mid, n.memory_bus, addr & !3u32, AccessWidth::Word, merged, r)
            },
            Err(e) => r == Err::<(), CpuError>(CpuError::Bus(e)) && n == (Cpu { memory_bus: mid, ..o }),
        }
}

fn bus_result(r: Result<(), BusError>) -> (c: Result<(), CpuError>)
    ensures
        spec_bus_part(c) == r,
        c is Ok || c matches Err(CpuError::Bus(_)),
{
    match r {
        Ok(u) => Ok(u),
        Err(e) => Err(CpuError::Bus(e)),
    }
}

impl Cpu {
    /// Reads a value of type `T` at `address` from the bus.
    pub fn load<T: Addressable>(&mut self, address: u32) -> (r: Result<T, BusError>)
        requires
            old(self).memory_bus.wf(),
        ensures
            final(self).memory_bus.wf(),
            spec_load_post(old(self).memory_bus, final(self).memory_bus, address, T::spec_width(), spec_loaded(r)),
            *final(self) == (Cpu { memory_bus: final(self).memory_bus, ..*old(self) }),
    {
        self.memory_bus.load::<T>(address)
    }

    /// Writes `value` at `address`, unless SR bit 16 isolates the cache, in
    /// which case the store is dropped.
    pub fn store<T: Addressable>(&mut self, address: u32, value: T) -> (r: Result<(), CpuError>)
        requires
            old(self).memory_bus.wf(),
        ensures
            final(self).memory_bus.wf(),
            spec_cpu_store(
                old(self).sr,
                old(self).memory_bus,
                final(self).memory_bus,
                address,
                T::spec_width(),
                value.spec_as_u32(),
                r,
            ),
            *final(self) == (Cpu { memory_bus: final(self).memory_bus, ..*old(self) }),
    {
        if self.sr & 0x1_0000 != 0 {
            return Ok(());
        }
        let r = self.memory_bus.store(address, value);
        bus_result(r)
    }

    /// Reads the word at `address`.
    pub fn load32(&mut self, address: u32) -> (r: Result<u32, BusError>)
        requires
            old(self).memory_bus.wf(),
        ensures
            final(self).memory_bus.wf(),
            spec_load_post(old(self).memory_bus, final(self).memory_bus, address, AccessWidth::Word, r),
            *final(self) == (Cpu { memory_bus: final(self).memory_bus, ..*old(self) }),
    {
        self.load::<u32>(address)
    }

    /// Writes the word `value` at `address` (dropped while the cache is
    /// isolated).
    pub fn store32(&mut self, address: u32, value: u32) -> (r: Result<(), CpuError>)
        requires
            old(self).memory_bus.wf(),
        ensures
            final(self).memory_bus.wf(),
            spec_cpu_store(old(self).sr, old(self).memory_bus, final(self).memory_bus, address, AccessWidth::Word, value, r),
            *final(self) == (Cpu { memory_bus: final(self).memory_bus, ..*old(self) }),
    {
        self.store::<u32>(address, value)
    }

    /// Loads `w`-wide from `addr` into register `t`, the value widened as
    /// `signed` says.
    fn load_into<T: Addressable>(&mut self, addr: u32, t: u32, signed: bool) -> (r: Result<(), CpuError>)
        requires
            old(self).memory_bus.wf(),
            old(self).load.0 < 32,
            t < 32,
        ensures
            final(self).memory_bus.wf(),
            spec_load_op(*old(self), *final(self), addr, T::spec_width(), signed, t, r),
    {
        let ghost o = *self;
        match self.load::<T>(addr) {
            Ok(v) => {
                let x = v.as_u32();
                let w = T::width();
                let y = if signed {
                    match w {
                        AccessWidth::Byte => x as u8 as i8 as u32,
                        AccessWidth::Halfword => x as u16 as i16 as u32,
                        AccessWidth::Word => x,
                    }
                } else {
                    x
                };
                let ghost mid = self.memory_bus;
                self.delayed_load_chain(t, y);
                assert(spec_load_post(o.memory_bus, self.memory_bus, addr, T::spec_width(), Ok::<u32, BusError>(x)));
                Ok(())
            },
            Err(e) => {
                assert(spec_load_post(o.memory_bus, self.memory_bus, addr, T::spec_width(), Err::<u32, BusError>(e)));
                Err(CpuError::Bus(e))
            },
        }
    }

    /// Load word; a misaligned address raises a load address error.
    pub fn op_lw(&mut self, instr: Instruction) -> (r: Result<(), CpuError>)
        requires
            old(self).memory_bus.wf(),
            old(self).load.0 < 32,
        ensures
            final(self).memory_bus.wf(),
            spec_op_lw(*old(self), *final(self), instr, r),
    {
        let addr = self.reg(instr.rs()).wrapping_add(instr.imm_se());
        if addr % 4 != 0 {
            self.trap(Exception::LoadAddressError);
            return Ok(());
        }
        self.load_into::<u32>(addr, instr.rt(), false)
    }

    /// Load halfword, sign-extended; a misaligned address raises a load
    /// address error.
    pub fn op_lh(&mut self, instr: Instruction) -> (r: Result<(), CpuError>)
        requires
            old(self).memory_bus.wf(),
            old(self).load.0 < 32,
        ensures
            final(self).memory_bus.wf(),
            spec_op_lh(*old(self), *final(self), instr, r),
    {
        let addr = self.reg(instr.rs()).wrapping_add(instr.imm_se());
        if addr % 2 != 0 {
            self.trap(Exception::LoadAddressError);
            return Ok(());
        }
        self.load_into::<u16>(addr, instr.rt(), true)
    }

    /// Load halfword, zero-extended; a misaligned address raises a load
    /// address error.
    pub fn op_lhu(&mut self, instr: Instruction) -> (r: Result<(), CpuError>)
        requires
            old(self).memory_bus.wf(),
            old(self).load.0 < 32,
        ensures
            final(self).memory_bus.wf(),
            spec_op_lhu(*old(self), *final(self), instr, r),
    {
        let addr = self.reg(instr.rs()).wrapping_add(instr.imm_se());
        if addr % 2 != 0 {
            self.trap(Exception::LoadAddressError);
            return Ok(());
        }
        self.load_into::<u16>(addr, instr.rt(), false)
    }

    /// Load byte, sign-extended.
    pub fn op_lb(&mut self, instr: Instruction) -> (r: Result<(), CpuError>)
        requires
            old(self).memory_bus.wf(),
            old(self).load.0 < 32,
        ensures
            final(self).memory_bus.wf(),
            spec_op_lb(*old(self), *final(self), instr, r),
    {
        let addr = self.reg(instr.rs()).wrapping_add(instr.imm_se());
        self.load_into::<u8>(addr, instr.rt(), true)
    }

    /// Load byte, zero-extended.
    pub fn op_lbu(&mut self, instr: Instruction) -> (r: Result<(), CpuError>)
        requires
            old(self).memory_bus.wf(),
            old(self).load.0 < 32,
        ensures
            final(self).memory_bus.wf(),
            spec_op_lbu(*old(self), *final(self), instr, r),
    {
        let addr = self.reg(instr.rs()).wrapping_add(instr.imm_se());
        self.load_into::<u8>(addr, instr.rt(), false)
    }

    /// Store word after the pending load lands; a misaligned address raises a
    /// store address error.
    pub fn op_sw(&mut self, instr: Instruction) -> (r: Result<(), CpuError>)
        requires
            old(self).memory_bus.wf(),
            old(self).load.0 < 32,
        ensures
            final(self).memory_bus.wf(),
            spec_op_sw(*old(self), *final(self), instr, r),
    {
        let addr = self.reg(instr.rs()).wrapping_add(instr.imm_se());
        let v = self.reg(instr.rt());
        if addr % 4 != 0 {
            self.trap(Exception::StoreAddressError);
            return Ok(());
        }
        self.delayed_load();
        self.store::<u32>(addr, v)
    }

    /// Store halfword after the pending load lands; a misaligned address
    /// raises a store address error.
    pub fn op_sh(&mut self, instr: Instruction) -> (r: Result<(), CpuError>)
        requires
            old(self).memory_bus.wf(),
            old(self).load.0 < 32,
        ensures
            final(self).memory_bus.wf(),
            spec_op_sh(*old(self), *final(self), instr, r),
    {
        let addr = self.reg(instr.rs()).wrapping_add(instr.imm_se());
        let v = self.reg(instr.rt());
        self.delayed_load();
        if addr % 2 != 0 {
            self.exception(Exception::StoreAddressError);
            return Ok(());
        }
        self.store::<u16>(addr, v as u16)
    }

    /// Store byte after the pending load lands.
    pub fn op_sb(&mut self, instr: Instruction) -> (r: Result<(), CpuError>)
        requires
            old(self).memory_bus.wf(),
            old(self).load.0 < 32,
        ensures
            final(self).memory_bus.wf(),
            spec_op_sb(*old(self), *final(self), instr, r),
    {
        let addr = self.reg(instr.rs()).wrapping_add(instr.imm_se());
        let v = self.reg(instr.rt());
        self.delayed_load();
        self.store::<u8>(addr, v as u8)
    }

    /// Load word left: merges the bytes up to the addressed one into the top
    /// of register `rt` (or of the value pending for it).
    pub fn op_lwl(&mut self, instr: Instruction) -> (r: Result<(), CpuError>)
        requires
            old(self).memory_bus.wf(),
            old(self).load.0 < 32,
        ensures
            final(self).memory_bus.wf(),
            spec_op_lwl(*old(self), *final(self), instr, r),
    {
        self.unaligned_load(instr, true)
    }

    /// Load word right: merges the bytes from the addressed one on into the
    /// bottom of register `rt` (or of the value pending for it).
    pub fn op_lwr(&mut self, instr: Instruction) -> (r: Result<(), CpuError>)
        requires
            old(self).memory_bus.wf(),
            old(self).load.0 < 32,
        ensures
            final(self).memory_bus.wf(),
            spec_op_lwr(*old(self), *final(self), instr, r),
    {
        self.unaligned_load(instr, false)
    }

    fn unaligned_load(&mut self, instr: Instruction, left: bool) -> (r: Result<(), CpuError>)
        requires
            old(self).memory_bus.wf(),
            old(self).load.0 < 32,
        ensures
            final(self).memory_bus.wf(),
            spec_unaligned_load(*old(self), *final(self), instr, left, r),
    {
        let ghost o = *self;
        let addr = self.reg(instr.rs()).wrapping_add(instr.imm_se());
        let t = instr.rt();
        let mut cur = self.reg(t);
        let aligned = addr & !3u32;
        let word = match self.load::<u32>(aligned) {
            Ok(w) => w,
            Err(e) => {
                assert(aligned == spec_addr(o, instr) & !3u32);
                assert(*self == (Cpu { memory_bus: self.memory_bus, ..o }));
                assert(spec_load_post(o.memory_bus, self.memory_bus, aligned, AccessWidth::Word, Err::<u32, BusError>(e)));
                return Err(CpuError::Bus(e));
            },
        };
        let (pending_reg, pending_value) = self.load;
        if pending_reg == t {
            cur = pending_value;
        }
        let k = addr & 3;
        let v = if left {
            if k == 0 {
                (cur & 0x00ff_ffff) | (word << 24)
            } else if k == 1 {
                (cur & 0x0000_ffff) | (word << 16)
            } else if k == 2 {
                (cur & 0x0000_00ff) | (word << 8)
            } else {
                word
            }
        } else {
            if k == 0 {
                word
            } else if k == 1 {
                (cur & 0xff00_0000) | (word >> 8)
            } else if k == 2 {
                (cur & 0xffff_0000) | (word >> 16)
            } else {
                (cur & 0xffff_ff00) | (word >> 24)
            }
        };
        assert(aligned == spec_addr(o, instr) & !3u32 && k == spec_addr(o, instr) & 3);
        assert(cur == spec_merge_base(o, t));
        assert(v == if left { spec_lwl(cur, word, k) } else { spec_lwr(cur, word, k) });
        self.delayed_load_chain(t, v);
        assert(spec_load_post(o.memory_bus, self.memory_bus, aligned, AccessWidth::Word, Ok::<u32, BusError>(word)));
        Ok(())
    }

    /// Store word left: the top bytes of register `rt` written from the
    /// addressed byte down to the word's start.
    pub fn op_swl(&mut self, instr: Instruction) -> (r: Result<(), CpuError>)
        requires
            old(self).memory_bus.wf(),
            old(self).load.0 < 32,
        ensures
            final(self).memory_bus.wf(),
            spec_op_swl(*old(self), *final(self), instr, r),
    {
        self.unaligned_store(instr, true)
    }

    /// Store word right: the bottom bytes of register `rt` written from the
    /// addressed byte up to the word's end.
    pub fn op_swr(&mut self, instr: Instruction) -> (r: Result<(), CpuError>)
        requires
            old(self).memory_bus.wf(),
            old(self).load.0 < 32,
        ensures
            final(self).memory_bus.wf(),
            spec_op_swr(*old(self), *final(self), instr, r),
    {
        self.unaligned_store(instr, false)
    }

    fn unaligned_store(&mut self, instr: Instruction, left: bool) -> (r: Result<(), CpuError>)
        requires
            old(self).memory_bus.wf(),
            old(self).load.0 < 32,
        ensures
            final(self).memory_bus.wf(),
            spec_unaligned_store(*old(self), *final(self), instr, left, r),
    {
        let ghost o = *self;
        let addr = self.reg(instr.rs()).wrapping_add(instr.imm_se());
        let v = self.reg(instr.rt());
        let aligned = addr & !3u32;
        let mem = match self.load::<u32>(aligned) {
            Ok(m) => m,
            Err(e) => {
                assert(aligned == spec_addr(o, instr) & !3u32);
                assert(*self == (Cpu { memory_bus: self.memory_bus, ..o }));
                assert(spec_load_post(o.memory_bus, self.memory_bus, aligned, AccessWidth::Word, Err::<u32, BusError>(e)));
                return Err(CpuError::Bus(e));
            },
        };
        let ghost mid = self.memory_bus;
        let k = addr & 3;
        let merged = if left {
            if k == 0 {
                (mem & 0xffff_ff00) | (v >> 24)
            } else if k == 1 {
                (mem & 0xffff_0000) | (v >> 16)
            } else if k == 2 {
                (mem & 0xff00_0000) | (v >> 8)
            } else {
                v
            }
        } else {
            if k == 0 {
                v
            } else if k == 1 {
                (mem & 0x0000_00ff) | (v << 8)
            } else if k == 2 {
                (mem & 0x0000_ffff) | (v << 16)
            } else {
                (mem & 0x00ff_ffff) | (v << 24)
            }
        };
        assert(aligned == spec_addr(o, instr) & !3u32 && k == spec_addr(o, instr) & 3);
        assert(merged == if left { spec_swl(mem, v, k) } else { spec_swr(mem, v, k) });
        self.delayed_load();
        let r = self.store::<u32>(aligned, merged);
        assert(spec_load_post(o.memory_bus, mid, aligned, AccessWidth::Word, Ok::<u32, BusError>(mem)));
        r
    }
}

/// The effect of `Cpu::op_lw`.
pub open spec fn spec_op_lw(before: Cpu, after: Cpu, instr: Instruction, r: Result<(), CpuError>) -> bool {
    if spec_addr(before, instr) % 4 != 0 {
        r is Ok && spec_trap(before, after, Exception::LoadAddressError)
    } else {
        spec_load_op(before, after, spec_addr(before, instr), AccessWidth::Word, false, spec_rt(instr), r)
    }
}

/// The effect of `Cpu::op_lh`.
pub open spec fn spec_op_lh(before: Cpu, after: Cpu, instr: Instruction, r: Result<(), CpuError>) -> bool {
    if spec_addr(before, instr) % 2 != 0 {
        r is Ok && spec_trap(before, after, Exception::LoadAddressError)
    } else {
        spec_load_op(before, after, spec_addr(before, instr), AccessWidth::Halfword, true, spec_rt(instr), r)
    }
}

/// The effect of `Cpu::op_lhu`.
pub open spec fn spec_op_lhu(before: Cpu, after: Cpu, instr: Instruction, r: Result<(), CpuError>) -> bool {
    if spec_addr(before, instr) % 2 != 0 {
        r is Ok && spec_trap(before, after, Exception::LoadAddressError)
    } else {
        spec_load_op(before, after, spec_addr(before, instr), AccessWidth::Halfword, false, spec_rt(instr), r)
    }
}

/// The effect of `Cpu::op_lb`.
pub open spec fn spec_op_lb(before: Cpu, after: Cpu, instr: Instruction, r: Result<(), CpuError>) -> bool {
    spec_load_op(before, after, spec_addr(before, instr), AccessWidth::Byte, true, spec_rt(instr), r)
}

/// The effect of `Cpu::op_lbu`.
pub open spec fn spec_op_lbu(before: Cpu, after: Cpu, instr: Instruction, r: Result<(), CpuError>) -> bool {
    spec_load_op(before, after, spec_addr(before, instr), AccessWidth::Byte, false, spec_rt(instr), r)
}

/// The effect of `Cpu::op_sw`.
pub open spec fn spec_op_sw(before: Cpu, after: Cpu, instr: Instruction, r: Result<(), CpuError>) -> bool {
    if spec_addr(before, instr) % 4 != 0 {
        r is Ok && spec_trap(before, after, Exception::StoreAddressError)
    } else {
        spec_store_op(before, after, spec_addr(before, instr), AccessWidth::Word, before.regs[spec_rt(instr) as int], r)
    }
}

/// The effect of `Cpu::op_sh`.
pub open spec fn spec_op_sh(before: Cpu, after: Cpu, instr: Instruction, r: Result<(), CpuError>) -> bool {
    if spec_addr(before, instr) % 2 != 0 {
        r is Ok && spec_trap(before, after, Exception::StoreAddressError)
    } else {
        spec_store_op(
            before,
            after,
            spec_addr(before, instr),
            AccessWidth::Halfword,
            before.regs[spec_rt(instr) as int] as u16 as u32,
            r,
        )
    }
}

/// The effect of `Cpu::op_sb`.
pub open spec fn spec_op_sb(before: Cpu, after: Cpu, instr: Instruction, r: Result<(), CpuError>) -> bool {
    spec_store_op(
        before,
        after,
        spec_addr(before, instr),
        AccessWidth::Byte,
        before.regs[spec_rt(instr) as int] as u8 as u32,
        r,
    )
}

/// The effect of `Cpu::op_lwl`.
pub open spec fn spec_op_lwl(before: Cpu, after: Cpu, instr: Instruction, r: Result<(), CpuError>) -> bool {
    spec_unaligned_load(before, after, instr, true, r)
}

/// The effect of `Cpu::op_lwr`.
pub open spec fn spec_op_lwr(before: Cpu, after: Cpu, instr: Instruction, r: Result<(), CpuError>) -> bool {
    spec_unaligned_load(before, after, instr, false, r)
}

/// The effect of `Cpu::op_swl`.
pub open spec fn spec_op_swl(before: Cpu, after: Cpu, instr: Instruction, r: Result<(), CpuError>) -> bool {
    spec_unaligned_store(before, after, instr, true, r)
}

/// The effect of `Cpu::op_swr`.
pub open spec fn spec_op_swr(before: Cpu, after: Cpu, instr: Instruction, r: Result<(), CpuError>) -> bool {
    spec_unaligned_store(before, after, instr, false, r)
}

} // verus!
