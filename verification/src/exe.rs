//! Loading a PS-X EXE program image into a running machine.
use vstd::prelude::*;
use crate::cpu::{spec_set_reg, Cpu};
use crate::ram::{Ram, RAM_BYTES};

verus! {

/// Why a program image cannot be loaded.
#[derive(Clone, Copy, PartialEq, Eq, Structural, Debug)]
pub enum ExeError {
    /// The file is shorter than its 800h-byte header and its text.
    Truncated,
    /// The text does not fit in RAM at its load address.
    OutOfRam,
}

/// The little-endian word at `at` of `d`.
pub open spec fn spec_word(d: Seq<u8>, at: int) -> u32 {
    let _n = d.len();
    (d[at] as u32) | ((d[at + 1] as u32) << 8u32) | ((d[at + 2] as u32) << 16u32) | ((d[at + 3] as u32) << 24u32)
}

/// The header fields: initial PC, initial GP (r28), RAM address of the
/// text (cut to the RAM's 2 MB), its size, initial SP.
pub open spec fn spec_exe_header(d: Seq<u8>) -> (u32, u32, u32, u32, u32) {
    (spec_word(d, 0x10), spec_word(d, 0x14), spec_word(d, 0x18) & 0x001f_ffff, spec_word(d, 0x1c), spec_word(d, 0x30))
}

/// What loading image `d` does to the CPU (`o` becomes `n`).
pub open spec fn spec_load_exe(o: Cpu, n: Cpu, d: Seq<u8>, r: Result<(), ExeError>) -> bool {
    let (pc, gp, addr, size, sp) = spec_exe_header(d);
    if d.len() < 0x800 || d.len() < 0x800 + size {
        r == Err::<(), ExeError>(ExeError::Truncated) && n == o
    } else if addr + size > RAM_BYTES {
        r == Err::<(), ExeError>(ExeError::OutOfRam) && n == o
    } else {
        let with_gp = spec_set_reg(o.regs@, 28, gp);
        &&& r is Ok
        &&& n.memory_bus.ram.data@ == o.memory_bus.ram.data@.subrange(0, addr as int) + d.subrange(0x800, 0x800 + size)
            + o.memory_bus.ram.data@.subrange(addr + size, RAM_BYTES as int)
        &&& n.regs@ == if sp != 0 { spec_set_reg(spec_set_reg(with_gp, 29, sp), 30, sp) } else { with_gp }
        &&& n.pc == pc && n.next_pc == pc.wrapping_add(4)
        &&& n == (Cpu {
            regs: n.regs,
            pc: n.pc,
            next_pc: n.next_pc,
            memory_bus: crate::memory_bus::MemoryBus { ram: Ram { data: n.memory_bus.ram.data }, ..o.memory_bus },
            ..o
        })
    }
}

fn word_at(d: &Vec<u8>, at: usize) -> (r: u32)
    requires
        at + 4 <= d@.len(),
    ensures
        r == spec_word(d@, at as int),
{
    let _n = d.len();
    (d[at] as u32) | ((d[at + 1] as u32) << 8) | ((d[at + 2] as u32) << 16) | ((d[at + 3] as u32) << 24)
}

/// Loads a PS-X EXE image: its text goes to RAM at the header's address,
/// GP, SP and FP (when the header gives an SP) are set, and execution
/// continues at the header's PC.
pub fn load_exe(cpu: &mut Cpu, data: &Vec<u8>) -> (r: Result<(), ExeError>)
    requires
        old(cpu).wf(),
    ensures
        final(cpu).wf(),
        spec_load_exe(*old(cpu), *final(cpu), data@, r),
{
    if data.len() < 0x800 {
        return Err(ExeError::Truncated);
    }
    let initial_pc = word_at(data, 0x10);
    let initial_r28 = word_at(data, 0x14);
    let exe_ram_addr = word_at(data, 0x18) & 0x001f_ffff;
    let exe_size = word_at(data, 0x1c);
    let initial_sp = word_at(data, 0x30);
    if ((data.len() - 0x800) as u64) < exe_size as u64 {
        return Err(ExeError::Truncated);
    }
    proof {
        crate::bitfacts::lemma_and_le_u32(spec_word(data@, 0x18), 0x001f_ffff);
    }
    if exe_ram_addr as u64 + exe_size as u64 > RAM_BYTES as u64 {
        return Err(ExeError::OutOfRam);
    }
    let base = exe_ram_addr as usize;
    let size = exe_size as usize;
    let ghost ram0 = cpu.memory_bus.ram.data@;
    let mut i: usize = 0;
    while i < size
        invariant
            i <= size,
            base + size <= RAM_BYTES,
            0x800 + size <= data@.len(),
            cpu.memory_bus.ram.data@.len() == RAM_BYTES,
            ram0.len() == RAM_BYTES,
            forall|k: int| 0 <= k < RAM_BYTES && !(base <= k < base + i) ==> #[trigger] cpu.memory_bus.ram.data@[k] == ram0[k],
            forall|k: int| base <= k < base + i ==> #[trigger] cpu.memory_bus.ram.data@[k] == data@[0x800 + k - base],
            *cpu == (Cpu {
                memory_bus: crate::memory_bus::MemoryBus { ram: Ram { data: cpu.memory_bus.ram.data }, ..old(cpu).memory_bus },
                ..*old(cpu)
            }),
        decreases size - i,
    {
        cpu.memory_bus.ram.data.set(base + i, data[0x800 + i]);
        i = i + 1;
    }
    proof {
        let n = cpu.memory_bus.ram.data@;
        let expect = ram0.subrange(0, base as int) + data@.subrange(0x800, 0x800 + size) + ram0.subrange(
            base + size,
            RAM_BYTES as int,
        );
        assert forall|k: int| 0 <= k < RAM_BYTES implies n[k] == expect[k] by {
            if k < base {
            } else if k < base + size {
            } else {
            }
        }
        assert(n =~= expect);
    }
    cpu.set_reg(28, initial_r28);
    if initial_sp != 0 {
        cpu.set_reg(29, initial_sp);
        cpu.set_reg(30, initial_sp);
    }
    cpu.pc = initial_pc;
    cpu.next_pc = initial_pc.wrapping_add(4);
    Ok(())
}

} // verus!
