use vstd::prelude::*;
use crate::addressable::{AccessWidth, Addressable};
use crate::bytes::{spec_read_le, spec_write_le};
use crate::cdrom_controller::{spec_cdrom_load, spec_cdrom_store, CDRom, CdRomError};
use crate::dma::{Channel, Direction, Dma, Port, Step, Sync};
use crate::gpu::Gpu;
use crate::irq::InterruptController;
use crate::ram::{Bios, Ram, BIOS_BYTES, RAM_BYTES};
use crate::scheduler::Scheduler;
use crate::scratchpad::{Scratchpad, SCRATCHPAD_BYTES};
use crate::sio::{spec_sio_store, Sio};
use crate::spu::{spec_spu_read, spec_spu_store, Spu};
use crate::spu_voice::{SpuError, SOUND_RAM_BYTES};
use crate::timers::{spec_sched_room, spec_timers_store, Timers};

verus! {

/// An address range: its start and its length in bytes.
#[derive(Clone, Copy)]
pub struct Range(pub u32, pub u32);

impl Range {
    /// The offset of `addr` from the start, when `addr` lies in the range.
    pub fn contains(self, addr: u32) -> (r: Option<u32>)
        requires
            self.0 + self.1 <= u32::MAX,
        ensures
            r == if self.0 <= addr < self.0 + self.1 { Some((addr - self.0) as u32) } else { None::<u32> },
    {
        let Range(start, length) = self;
        if addr >= start && addr < start + length {
            Some(addr - start)
        } else {
            None
        }
    }
}

/// The bios address range.
pub fn bios() -> (r: Range)
    ensures
        r == Range(0x1fc00000, 524288),
{
    Range(0x1fc00000, 524288)
}

/// The mem ctrl address range.
pub fn mem_ctrl() -> (r: Range)
    ensures
        r == Range(0x1f801000, 36),
{
    Range(0x1f801000, 36)
}

/// The ram size address range.
pub fn ram_size() -> (r: Range)
    ensures
        r == Range(0x1f801060, 4),
{
    Range(0x1f801060, 4)
}

/// The cache control address range.
pub fn cache_control() -> (r: Range)
    ensures
        r == Range(0xfffe0130, 4),
{
    Range(0xfffe0130, 4)
}

/// The ram address range.
pub fn ram() -> (r: Range)
    ensures
        r == Range(0x0000_0000, 2097152),
{
    Range(0x0000_0000, 2097152)
}

/// The scratchpad address range.
pub fn scratchpad() -> (r: Range)
    ensures
        r == Range(0x1f80_0000, 1024),
{
    Range(0x1f80_0000, 1024)
}

/// The spu address range.
pub fn spu() -> (r: Range)
    ensures
        r == Range(0x1f801c00, 640),
{
    Range(0x1f801c00, 640)
}

/// The expansion 1 address range.
pub fn expansion_1() -> (r: Range)
    ensures
        r == Range(0x1f000000, 524288),
{
    Range(0x1f000000, 524288)
}

/// The expansion 2 address range.
pub fn expansion_2() -> (r: Range)
    ensures
        r == Range(0x1f802000, 8192),
{
    Range(0x1f802000, 8192)
}

/// The irq control address range.
pub fn irq_control() -> (r: Range)
    ensures
        r == Range(0x1f801070, 8),
{
    Range(0x1f801070, 8)
}

/// The timers address range.
pub fn timers() -> (r: Range)
    ensures
        r == Range(0x1F801100, 0x30),
{
    Range(0x1F801100, 0x30)
}

/// The dma address range.
pub fn dma() -> (r: Range)
    ensures
        r == Range(0x1f801080, 0x80),
{
    Range(0x1f801080, 0x80)
}

/// The gpu address range.
pub fn gpu() -> (r: Range)
    ensures
        r == Range(0x1f801810, 8),
{
    Range(0x1f801810, 8)
}

/// The joystick address range.
pub fn joystick() -> (r: Range)
    ensures
        r == Range(0x1f801040, 16),
{
    Range(0x1f801040, 16)
}

/// The cdrom address range.
pub fn cdrom() -> (r: Range)
    ensures
        r == Range(0x1f801800, 4),
{
    Range(0x1f801800, 4)
}


/// The physical address of `addr`: KSEG0 and KSEG1 addresses lose their
/// segment bits; KUSEG and KSEG2 addresses stay as they are.
pub open spec fn spec_mask_region(addr: u32) -> u32 {
    let seg = addr >> 29u32;
    if seg == 4 {
        addr & 0x7fff_ffff
    } else if seg == 5 {
        addr & 0x1fff_ffff
    } else {
        addr
    }
}

/// The physical address of `addr`.
pub fn mask_region(addr: u32) -> (r: u32)
    ensures
        r == spec_mask_region(addr),
{
    let index = addr >> 29;
    if index == 4 {
        addr & 0x7fff_ffff
    } else if index == 5 {
        addr & 0x1fff_ffff
    } else {
        addr
    }
}

/// Why an access could not be made; the machine cannot go on after it.
#[derive(Clone, Copy, PartialEq, Eq, Structural, Debug)]
pub enum BusError {
    /// The address is not a multiple of the access width.
    Unaligned,
    /// No device answers at the address.
    Unhandled,
    /// The device does not handle this access (width, register or state).
    Device,
    /// The event queue is full.
    SchedulerFull,
    /// A DMA linked list never ends.
    DmaLoop,
    /// The sound processor refused the access.
    Spu(SpuError),
    /// The CD-ROM controller refused the access.
    CdRom(CdRomError),
}

/// The devices on the bus, by address range.
#[derive(Clone, Copy, PartialEq, Eq, Structural, Debug)]
pub enum Region {
    Ram,
    Gpu,
    Spu,
    Joystick,
    Dma,
    Scratchpad,
    IrqControl,
    CdRom,
    Timers,
    Bios,
    Expansion1,
    Expansion2,
    MemCtrl,
    RamSize,
    CacheControl,
    Nothing,
}

/// Whether `a` lies in the range starting at `start` of `len` bytes.
pub open spec fn spec_in(a: u32, start: u32, len: u32) -> bool {
    start <= a < start + len
}

/// The device that a load from physical address `a` reaches, and the
/// offset within it (ranges are tried in the bus's order).
pub open spec fn spec_load_region(a: u32) -> (Region, u32) {
    if spec_in(a, 0, 2097152) { (Region::Ram, a) }
    else if spec_in(a, 0x1f801810, 8) { (Region::Gpu, (a - 0x1f801810) as u32) }
    else if spec_in(a, 0x1f801c00, 640) { (Region::Spu, a) }
    else if spec_in(a, 0x1f801040, 16) { (Region::Joystick, (a - 0x1f801040) as u32) }
    else if spec_in(a, 0x1f801080, 0x80) { (Region::Dma, (a - 0x1f801080) as u32) }
    else if spec_in(a, 0x1f800000, 1024) { (Region::Scratchpad, (a - 0x1f800000) as u32) }
    else if spec_in(a, 0x1f801070, 8) { (Region::IrqControl, (a - 0x1f801070) as u32) }
    else if spec_in(a, 0x1f801800, 4) { (Region::CdRom, (a - 0x1f801800) as u32) }
    else if spec_in(a, 0x1f801100, 0x30) { (Region::Timers, (a - 0x1f801100) as u32) }
    else if spec_in(a, 0x1fc00000, 524288) { (Region::Bios, (a - 0x1fc00000) as u32) }
    else if spec_in(a, 0x1f000000, 524288) { (Region::Expansion1, (a - 0x1f000000) as u32) }
    else if spec_in(a, 0x1f802000, 8192) { (Region::Expansion2, (a - 0x1f802000) as u32) }
    else if spec_in(a, 0x1f801000, 36) { (Region::MemCtrl, (a - 0x1f801000) as u32) }
    else { (Region::Nothing, 0) }
}

/// The device that a store to physical address `a` reaches, and the offset
/// within it (ranges are tried in the bus's order).
pub open spec fn spec_store_region(a: u32) -> (Region, u32) {
    if spec_in(a, 0, 2097152) { (Region::Ram, a) }
    else if spec_in(a, 0x1f801810, 8) { (Region::Gpu, (a - 0x1f801810) as u32) }
    else if spec_in(a, 0x1f801080, 0x80) { (Region::Dma, (a - 0x1f801080) as u32) }
    else if spec_in(a, 0x1f800000, 1024) { (Region::Scratchpad, (a - 0x1f800000) as u32) }
    else if spec_in(a, 0x1f801c00, 640) { (Region::Spu, a) }
    else if spec_in(a, 0x1f801040, 16) { (Region::Joystick, (a - 0x1f801040) as u32) }
    else if spec_in(a, 0x1f801100, 0x30) { (Region::Timers, (a - 0x1f801100) as u32) }
    else if spec_in(a, 0x1f801800, 4) { (Region::CdRom, (a - 0x1f801800) as u32) }
    else if spec_in(a, 0x1f801000, 36) { (Region::MemCtrl, (a - 0x1f801000) as u32) }
    else if spec_in(a, 0x1f801060, 4) { (Region::RamSize, (a - 0x1f801060) as u32) }
    else if spec_in(a, 0xfffe0130, 4) { (Region::CacheControl, (a - 0xfffe0130) as u32) }
    else if spec_in(a, 0x1f801070, 8) { (Region::IrqControl, (a - 0x1f801070) as u32) }
    else if spec_in(a, 0x1f802000, 8192) { (Region::Expansion2, (a - 0x1f802000) as u32) }
    else { (Region::Nothing, 0) }
}

/// The machine's devices as the CPU sees them through its address space.
pub struct MemoryBus {
    pub bios: Bios,
    pub ram: Ram,
    pub scratchpad: Scratchpad,
    pub dma: Dma,
    pub gpu: Gpu,
    pub spu: Spu,
    pub irqctl: InterruptController,
    pub scheduler: Scheduler,
    pub timers: Timers,
    pub sio: Sio,
    pub cdrom: CDRom,
}

/// Whether `addr` is a multiple of the width `w`.
pub open spec fn spec_aligned(addr: u32, w: AccessWidth) -> bool {
    addr % (w.spec_bytes() as u32) == 0
}

impl MemoryBus {
    pub open spec fn wf(&self) -> bool {
        &&& self.bios.wf()
        &&& self.ram.wf()
        &&& self.scratchpad.wf()
        &&& self.gpu.wf()
        &&& self.spu.wf()
        &&& self.scheduler.wf()
        &&& self.sio.wf()
        &&& self.cdrom.wf()
        &&& forall|i: int| 0 <= i < 3 ==> #[trigger] self.timers.timers[i].last_read <= self.scheduler.cycle
    }

    /// The bus over the given devices.
    pub fn new(
        bios: Bios,
        ram: Ram,
        scratchpad: Scratchpad,
        dma: Dma,
        gpu: Gpu,
        spu: Spu,
        irqctl: InterruptController,
        scheduler: Scheduler,
        timers: Timers,
        sio: Sio,
        cdrom: CDRom,
    ) -> (r: MemoryBus)
        ensures
            r.bios == bios && r.ram == ram && r.scratchpad == scratchpad && r.dma == dma && r.gpu == gpu && r.spu == spu,
            r.irqctl == irqctl && r.scheduler == scheduler && r.timers == timers && r.sio == sio && r.cdrom == cdrom,
    {
        MemoryBus { bios, ram, scratchpad, dma, gpu, spu, irqctl, scheduler, timers, sio, cdrom }
    }
}

/// Value of DMA register `offset` (32-bit accesses only), or `None` for a
/// register that is not there.
pub open spec fn spec_dma_reg(dma: Dma, offset: u32) -> Option<u32> {
    let major = (offset & 0x70) >> 4u32;
    let minor = offset & 0xf;
    if major < 7 {
        let c = dma.channels[major as int];
        if minor == 0 {
            Some(c.base)
        } else if minor == 4 {
            Some(((c.block_count as u32) << 16u32) | (c.block_size as u32))
        } else if minor == 8 {
            Some(crate::dma::spec_channel_control(c))
        } else {
            None
        }
    } else if minor == 0 {
        Some(dma.control)
    } else if minor == 4 {
        Some(dma.spec_interrupt())
    } else {
        None
    }
}

/// Only the devices that `keep` does not name may have changed.
pub open spec fn spec_same_except(o: MemoryBus, n: MemoryBus, gpu: bool, sio: bool, timers: bool, irq: bool) -> bool {
    &&& n.bios == o.bios && n.ram == o.ram && n.scratchpad == o.scratchpad && n.dma == o.dma
    &&& n.scheduler == o.scheduler && n.spu == o.spu && n.cdrom == o.cdrom
    &&& !gpu ==> n.gpu == o.gpu
    &&& !sio ==> n.sio == o.sio
    &&& !timers ==> n.timers == o.timers
    &&& !irq ==> n.irqctl == o.irqctl
}

/// What a `w`-wide load from `addr` gives (`r`) and does (`o` becomes `n`).
pub open spec fn spec_load_post(o: MemoryBus, n: MemoryBus, addr: u32, w: AccessWidth, r: Result<u32, BusError>) -> bool {
    let a = spec_mask_region(addr);
    let (region, off) = spec_load_region(a);
    let m = w.spec_mask();
    if !spec_aligned(a, w) {
        r == Err::<u32, BusError>(BusError::Unaligned) && n == o
    } else {
        match region {
            Region::Ram => r == Ok::<u32, BusError>(spec_read_le(o.ram.data@, off as int, w)) && n == o,
            Region::Scratchpad => r == Ok::<u32, BusError>(spec_read_le(o.scratchpad.data@, off as int, w)) && n == o,
            Region::Bios => r == Ok::<u32, BusError>(spec_read_le(o.bios.data@, off as int, w)) && n == o,
            Region::Expansion1 => r == Ok::<u32, BusError>(m) && n == o,
            Region::Expansion2 => r == Ok::<u32, BusError>(m) && n == o,
            Region::MemCtrl => r == Ok::<u32, BusError>(0) && n == o,
            Region::Gpu => if w == AccessWidth::Word && (off == 4 || (off == 0 && o.gpu.read_ok())) {
                &&& spec_same_except(o, n, true, false, false, false)
                &&& off == 4 ==> r == Ok::<u32, BusError>(crate::gpu::spec_status(o.gpu.regs)) && n.gpu == o.gpu
                &&& off == 0 ==> (r matches Ok(v) && Gpu::read_post(o.gpu, n.gpu, v))
            } else {
                r == Err::<u32, BusError>(BusError::Device) && n == o
            },
            Region::Joystick => if off == 0 || off == 4 || off == 0xa {
                &&& spec_same_except(o, n, false, true, false, false)
                &&& off == 4 ==> r == Ok::<u32, BusError>(o.sio.status & m) && n.sio == o.sio
                &&& off == 0xa ==> r == Ok::<u32, BusError>((o.sio.control as u32) & m) && n.sio == o.sio
                &&& off == 0 ==> r is Ok
            } else {
                r == Err::<u32, BusError>(BusError::Device) && n == o
            },
            Region::Dma => if w == AccessWidth::Word && spec_dma_reg(o.dma, off) is Some {
                r == Ok::<u32, BusError>(spec_dma_reg(o.dma, off)->0) && n == o
            } else {
                r == Err::<u32, BusError>(BusError::Device) && n == o
            },
            Region::IrqControl => if off == 0 || off == 4 {
                r == Ok::<u32, BusError>((if off == 0 { o.irqctl.status.0 } else { o.irqctl.mask }) & m) && n == o
            } else {
                r == Err::<u32, BusError>(BusError::Device) && n == o
            },
            Region::Timers => if off & 0xf == 0 || off & 0xf == 4 || off & 0xf == 8 {
                r is Ok && spec_same_except(o, n, false, false, true, false)
            } else {
                r == Err::<u32, BusError>(BusError::Device) && n == o
            },
            Region::Spu => n == o && match spec_spu_read(o.spu, addr) {
                Some(v) => r == Ok::<u32, BusError>(v & m),
                None => r == Err::<u32, BusError>(BusError::Spu(SpuError::Register)),
            },
            Region::CdRom => {
                &&& spec_cdrom_load(o.cdrom, n.cdrom, off, w, spec_cd_load_part(r))
                &&& (r is Ok || r matches Err(BusError::CdRom(_)))
                &&& n == (MemoryBus { cdrom: n.cdrom, ..o })
            },
            _ => r == Err::<u32, BusError>(BusError::Unhandled) && n == o,
        }
    }
}

/// The sound processor's part of a bus result.
pub open spec fn spec_spu_part(r: Result<(), BusError>) -> Result<(), SpuError> {
    match r {
        Ok(u) => Ok(u),
        Err(BusError::Spu(e)) => Err(e),
        Err(_) => Err(SpuError::Register),
    }
}

/// The CD-ROM controller's part of a bus load result.
pub open spec fn spec_cd_load_part(r: Result<u32, BusError>) -> Result<u32, CdRomError> {
    match r {
        Ok(v) => Ok(v),
        Err(BusError::CdRom(e)) => Err(e),
        Err(_) => Err(CdRomError::Register),
    }
}

/// The CD-ROM controller's part of a bus store result.
pub open spec fn spec_cd_store_part(r: Result<(), BusError>) -> Result<(), CdRomError> {
    match r {
        Ok(u) => Ok(u),
        Err(BusError::CdRom(e)) => Err(e),
        Err(_) => Err(CdRomError::Register),
    }
}

/// The value of type `T` loaded, as a plain word.
pub open spec fn spec_loaded<T: Addressable>(r: Result<T, BusError>) -> Result<u32, BusError> {
    match r {
        Ok(v) => Ok(v.spec_as_u32()),
        Err(e) => Err(e),
    }
}

fn is_aligned(a: u32, w: AccessWidth) -> (r: bool)
    ensures
        r == spec_aligned(a, w),
{
    a % w.bytes() == 0
}

impl MemoryBus {
    /// Reads DMA register `offset`.
    pub fn dma_reg(&self, offset: u32) -> (r: Option<u32>)
        ensures
            r == spec_dma_reg(self.dma, offset),
    {
        let major = (offset & 0x70) >> 4;
        let minor = offset & 0xf;
        if major < 7 {
            proof {
                crate::bitfacts::lemma_and_le_u32(offset, 0x70);
            }
            let c = self.dma.channel(Port::from_index(major as u8));
            if minor == 0 {
                Some(c.base())
            } else if minor == 4 {
                Some(c.block_control())
            } else if minor == 8 {
                Some(c.control())
            } else {
                None
            }
        } else if minor == 0 {
            Some(self.dma.control())
        } else if minor == 4 {
            Some(self.dma.interrupt())
        } else {
            None
        }
    }

    /// Reads a value of type `T` at `addr`.
    #[verifier::rlimit(40)]
    pub fn load<T: Addressable>(&mut self, addr: u32) -> (r: Result<T, BusError>)
        requires
            old(self).wf(),
        ensures
            final(self).wf(),
            spec_load_post(*old(self), *final(self), addr, T::spec_width(), spec_loaded(r)),
    {
        let w = T::width();
        let a = mask_region(addr);
        if !is_aligned(a, w) {
            return Err(BusError::Unaligned);
        }
        proof {
            assert(w.spec_bytes() == 1 || w.spec_bytes() == 2 || w.spec_bytes() == 4);
        }
        if let Some(off) = ram().contains(a) {
            proof {
                crate::bitfacts::lemma_offset_fits(a as int, 0, RAM_BYTES as int, w.spec_bytes() as int);
            }
            return Ok(self.ram.load(off));
        }
        if let Some(off) = gpu().contains(a) {
            if self.gpu.can_load::<T>(off) {
                let v = self.gpu.load::<T>(off);
                return Ok(v);
            }
            return Err(BusError::Device);
        }
        if let Some(_) = spu().contains(a) {
            return match self.spu.load::<T>(addr) {
                Ok(v) => Ok(v),
                Err(e) => Err(BusError::Spu(e)),
            };
        }
        if let Some(off) = joystick().contains(a) {
            if off == 0 || off == 4 || off == 0xa {
                return Ok(self.sio.load(off));
            }
            return Err(BusError::Device);
        }
        if let Some(off) = dma().contains(a) {
            if w != AccessWidth::Word {
                return Err(BusError::Device);
            }
            return match self.dma_reg(off) {
                Some(v) => {
                    proof {
                        crate::bitfacts::lemma_ones_and_u32(v);
                    }
                    Ok(T::from_u32(v))
                },
                None => Err(BusError::Device),
            };
        }
        if let Some(off) = scratchpad().contains(a) {
            proof {
                crate::bitfacts::lemma_offset_fits(a as int, 0x1f80_0000, SCRATCHPAD_BYTES as int, w.spec_bytes() as int);
            }
            return Ok(self.scratchpad.load(off));
        }
        if let Some(off) = irq_control().contains(a) {
            if off == 0 || off == 4 {
                return Ok(self.irqctl.load(off));
            }
            return Err(BusError::Device);
        }
        if let Some(off) = cdrom().contains(a) {
            return match self.cdrom.load::<T>(off) {
                Ok(v) => Ok(v),
                Err(e) => Err(BusError::CdRom(e)),
            };
        }
        if let Some(off) = timers().contains(a) {
            let reg = off & 0xf;
            if reg == 0 || reg == 4 || reg == 8 {
                proof {
                    crate::bitfacts::lemma_counter_of(off);
                }
                let cycle = self.scheduler.cycle;
                let v = self.timers.load(off, cycle);
                return Ok(v);
            }
            return Err(BusError::Device);
        }
        if let Some(off) = bios().contains(a) {
            proof {
                crate::bitfacts::lemma_offset_fits(a as int, 0x1fc0_0000, BIOS_BYTES as int, w.spec_bytes() as int);
            }
            return Ok(self.bios.load(off));
        }
        proof {
            crate::bitfacts::lemma_ones_and_u32(w.spec_mask());
        }
        if let Some(_) = expansion_1().contains(a) {
            return Ok(T::from_u32(0xffff_ffff));
        }
        if let Some(_) = expansion_2().contains(a) {
            return Ok(T::from_u32(0xffff_ffff));
        }
        if let Some(_) = mem_ctrl().contains(a) {
            return Ok(T::from_u32(0));
        }
        Err(BusError::Unhandled)
    }
}

/// A channel register after a write of `v` to register `minor` (base,
/// block control, control), or `None` when there is no such register or
/// the control value asks for the reserved sync mode.
pub open spec fn spec_channel_write(c: crate::dma::Channel, minor: u32, v: u32) -> Option<crate::dma::Channel> {
    if minor == 0 {
        Some(crate::dma::Channel { base: v & 0xff_ffff, ..c })
    } else if minor == 4 {
        Some(crate::dma::Channel { block_size: v as u16, block_count: (v >> 16u32) as u16, ..c })
    } else if minor == 8 {
        crate::dma::spec_set_channel_control(c, v)
    } else {
        None
    }
}

/// What a write of `v` to DMA register `offset` does to the bus (`o`
/// becomes `n`): the registers change, and a channel made active runs its
/// transfer (of which only what it leaves alone is stated).
pub open spec fn spec_dma_reg_write(o: MemoryBus, n: MemoryBus, offset: u32, v: u32, r: Result<(), BusError>) -> bool {
    let major = (offset & 0x70) >> 4u32;
    let minor = offset & 0xf;
    if major < 7 {
        match spec_channel_write(o.dma.channels[major as int], minor, v) {
            None => r == Err::<(), BusError>(BusError::Device) && n == o,
            Some(c) => if c.spec_active() {
                &&& n.bios == o.bios && n.scratchpad == o.scratchpad && n.irqctl == o.irqctl
                &&& n.scheduler == o.scheduler && n.timers == o.timers && n.sio == o.sio
            } else {
                &&& r is Ok
                &&& n == (MemoryBus { dma: n.dma, ..o })
                &&& n.dma == (Dma { channels: n.dma.channels, ..o.dma })
                &&& n.dma.channels@ == o.dma.channels@.update(major as int, c)
            },
        }
    } else if minor == 0 {
        r is Ok && n == (MemoryBus { dma: Dma { control: v, ..o.dma }, ..o })
    } else if minor == 4 {
        &&& r is Ok
        &&& n == (MemoryBus { dma: n.dma, ..o })
        &&& n.dma.irq_dummy == (v & 0x3f) as u8
        &&& n.dma.force_irq == ((v >> 15u32) & 1 != 0)
        &&& n.dma.channel_irq_en == ((v >> 16u32) & 0x7f) as u8
        &&& n.dma.irq_en == ((v >> 23u32) & 1 != 0)
        &&& n.dma.channel_irq_flags == o.dma.channel_irq_flags & !(((v >> 24u32) & 0x3f) as u8)
        &&& n.dma.control == o.dma.control && n.dma.channels == o.dma.channels
    } else {
        r == Err::<(), BusError>(BusError::Device) && n == o
    }
}

/// A word from RAM can go to the device of `port`: the GPU takes it (as a
/// command word it must know), or the SPU has room at its transfer address.
pub open spec fn spec_from_ram_ok(o: MemoryBus, port: Port, word: u32) -> bool {
    match port {
        Port::Gpu => o.gpu.gp0_words_remaining == 0 ==> crate::gpu::spec_gp0_decode(word >> 24u32) is Some,
        Port::Spu => (o.spu.current_address & 0x7_ffff) + 4 <= SOUND_RAM_BYTES && o.spu.current_address + 4 <= usize::MAX,
        _ => false,
    }
}

/// The device of `port` took the word (`o` becomes `n`).
pub open spec fn spec_from_ram_post(o: MemoryBus, n: MemoryBus, port: Port, word: u32) -> bool {
    match port {
        Port::Gpu => crate::gpu::spec_gp0_post(o.gpu, n.gpu, word) && n == (MemoryBus { gpu: n.gpu, ..o }),
        Port::Spu => crate::spu::spec_ram_write(o.spu, n.spu, 4, word) && n == (MemoryBus { spu: n.spu, ..o }),
        _ => n == o,
    }
}

/// The address register of channel `c` after `k` steps: up or down by a
/// word each step, wrapping.
pub open spec fn spec_block_addr(c: Channel, k: int) -> u32 {
    ((c.base as int + k * (if c.step == Step::Increment { 4int } else { 0xffff_fffcint })) % 0x1_0000_0000) as u32
}

/// The ordering-table entry written at `addr`: the end marker for the last
/// one, else a pointer to the entry before it.
pub open spec fn spec_otc_word(addr: u32, last: bool) -> u32 {
    if last {
        0xffffff
    } else {
        addr.wrapping_sub(4) & 0x1fffff
    }
}

/// Step `k` of a block transfer on channel `c` can be made.
pub open spec fn spec_block_ok(m: MemoryBus, port: Port, c: Channel, k: int) -> bool {
    let a = spec_block_addr(c, k) & 0x1ffffc;
    match c.direction {
        Direction::FromRam => spec_from_ram_ok(m, port, spec_read_le(m.ram.data@, a as int, AccessWidth::Word)),
        Direction::ToRam => port == Port::Otc || (port == Port::Gpu && m.gpu.load_ok::<u32>(0)),
    }
}

/// Step `k` of a block transfer of `cnt` words on channel `c` (`m`
/// becomes `n`).
pub open spec fn spec_block_step(m: MemoryBus, n: MemoryBus, port: Port, c: Channel, cnt: u32, k: int) -> bool {
    let addr = spec_block_addr(c, k);
    let a = addr & 0x1ffffc;
    match c.direction {
        Direction::FromRam => spec_from_ram_post(m, n, port, spec_read_le(m.ram.data@, a as int, AccessWidth::Word)),
        Direction::ToRam => if port == Port::Otc {
            &&& n == (MemoryBus { ram: Ram { data: n.ram.data }, ..m })
            &&& n.ram.data@ == spec_write_le(m.ram.data@, a as int, AccessWidth::Word, spec_otc_word(addr, cnt - k == 1))
        } else {
            exists|v: u32|
                #![trigger spec_write_le(m.ram.data@, a as int, AccessWidth::Word, v)]
                Gpu::read_post(m.gpu, n.gpu, v) && n == (MemoryBus { gpu: n.gpu, ram: Ram { data: n.ram.data }, ..m })
                    && n.ram.data@ == spec_write_le(m.ram.data@, a as int, AccessWidth::Word, v)
        },
    }
}

/// `t` lists the machine before each step of a block transfer of `cnt`
/// words on channel `c`, from `o` on, and after the last one listed.
pub open spec fn spec_block_trace(o: MemoryBus, t: Seq<MemoryBus>, port: Port, c: Channel, cnt: u32) -> bool {
    &&& t.len() >= 1
    &&& t[0] == o
    &&& forall|j: int|
        0 <= j < t.len() - 1 ==> spec_block_ok(t[j], port, c, j) && #[trigger] spec_block_step(t[j], t[j + 1], port, c, cnt, j)
}

/// What a block transfer on the channel of `port` does (`o` becomes `n`):
/// all of its steps and the channel stopped, or the steps before the first
/// that could not be made.
pub open spec fn spec_block_post(o: MemoryBus, n: MemoryBus, port: Port, r: Result<(), BusError>) -> bool {
    let idx = port.spec_index();
    let c = o.dma.channels[idx];
    match c.spec_transfer_size() {
        None => r == Err::<(), BusError>(BusError::Device) && n == o,
        Some(cnt) => exists|t: Seq<MemoryBus>|
            #[trigger] spec_block_trace(o, t, port, c, cnt) && t.len() <= cnt + 1 && if r is Ok {
                let m = t.last();
                &&& t.len() == cnt + 1
                &&& n == (MemoryBus { dma: n.dma, ..m })
                &&& n.dma == (Dma { channels: n.dma.channels, ..m.dma })
                &&& n.dma.channels@ == m.dma.channels@.update(idx, Channel { enable: false, trigger: false, ..c })
            } else {
                &&& r == Err::<(), BusError>(BusError::Device)
                &&& t.len() <= cnt
                &&& n == t.last()
                &&& !spec_block_ok(t.last(), port, c, t.len() - 1)
            },
    }
}

/// One more step extends the trace of a block transfer.
proof fn lemma_block_trace_extend(o: MemoryBus, t: Seq<MemoryBus>, n: MemoryBus, port: Port, c: Channel, cnt: u32)
    requires
        spec_block_trace(o, t, port, c, cnt),
        spec_block_ok(t.last(), port, c, t.len() - 1),
        spec_block_step(t.last(), n, port, c, cnt, t.len() - 1),
    ensures
        spec_block_trace(o, t.push(n), port, c, cnt),
{
    let t2 = t.push(n);
    assert forall|j: int| 0 <= j < t2.len() - 1 implies spec_block_ok(t2[j], port, c, j) && #[trigger] spec_block_step(
        t2[j],
        t2[j + 1],
        port,
        c,
        cnt,
        j,
    ) by {
        if j < t.len() - 1 {
            assert(t2[j] == t[j] && t2[j + 1] == t[j + 1]);
            assert(spec_block_step(t[j], t[j + 1], port, c, cnt, j));
        } else {
            assert(t2[j] == t.last() && t2[j + 1] == n);
        }
    }
}

/// The words of one linked-list packet of `n` words whose header is at
/// `addr`: each read from the next word address, wrapping within RAM.
pub open spec fn spec_ll_body(ram: Seq<u8>, addr: u32, n: nat) -> Seq<u32>
    decreases n,
{
    if n == 0 {
        Seq::empty()
    } else {
        let next = ((addr + 4) as u32) & 0x1ffffc;
        seq![spec_read_le(ram, next as int, AccessWidth::Word)] + spec_ll_body(ram, next, (n - 1) as nat)
    }
}

/// The words of the packets of a linked list from the header at `addr`,
/// at most `fuel` packets of it, and whether the end marker came within
/// them.
pub open spec fn spec_ll_walk(ram: Seq<u8>, addr: u32, fuel: nat) -> (Seq<u32>, bool)
    decreases fuel,
{
    if fuel == 0 {
        (Seq::empty(), false)
    } else {
        let header = spec_read_le(ram, addr as int, AccessWidth::Word);
        let body = spec_ll_body(ram, addr, (header >> 24u32) as nat);
        if header & 0x800000 != 0 {
            (body, true)
        } else {
            let rest = spec_ll_walk(ram, header & 0x1ffffc, (fuel - 1) as nat);
            (body + rest.0, rest.1)
        }
    }
}

/// Most packets a linked-list transfer follows before it gives up on the
/// list as circular: one per word of RAM.
pub open spec fn spec_ll_max_packets() -> nat {
    0x80000
}

/// `t` lists the machine before each of the words `w` that went to the
/// device of `port`, from `o` on, and after the last one listed.
pub open spec fn spec_words_trace(o: MemoryBus, t: Seq<MemoryBus>, port: Port, w: Seq<u32>) -> bool {
    &&& 1 <= t.len() <= w.len() + 1
    &&& t[0] == o
    &&& forall|j: int| 0 <= j < t.len() - 1 ==> #[trigger] spec_word_step(t[j], t[j + 1], port, w[j])
}

/// The device of `port` could take `word`, and took it (`m` becomes `n`).
pub open spec fn spec_word_step(m: MemoryBus, n: MemoryBus, port: Port, word: u32) -> bool {
    spec_from_ram_ok(m, port, word) && spec_from_ram_post(m, n, port, word)
}

/// What a linked-list transfer on the channel of `port` does (`o` becomes
/// `n`): the packets' words go to the GPU in turn; after the end marker
/// the channel stops; a word the GPU cannot take stops the transfer there;
/// a list longer than the packet limit is reported as a loop.
pub open spec fn spec_ll_post(o: MemoryBus, n: MemoryBus, port: Port, r: Result<(), BusError>) -> bool {
    let idx = port.spec_index();
    let c = o.dma.channels[idx];
    if c.direction == Direction::ToRam || port != Port::Gpu {
        r == Err::<(), BusError>(BusError::Device) && n == o
    } else {
        let walk = spec_ll_walk(o.ram.data@, c.base & 0x1ffffc, spec_ll_max_packets());
        let w = walk.0;
        exists|t: Seq<MemoryBus>|
            #[trigger] spec_words_trace(o, t, port, w) && match r {
                Ok(_) => {
                    let m = t.last();
                    &&& t.len() == w.len() + 1
                    &&& walk.1
                    &&& n == (MemoryBus { dma: n.dma, ..m })
                    &&& n.dma == (Dma { channels: n.dma.channels, ..m.dma })
                    &&& n.dma.channels@ == m.dma.channels@.update(idx, Channel { enable: false, trigger: false, ..c })
                },
                Err(BusError::DmaLoop) => t.len() == w.len() + 1 && !walk.1 && n == t.last(),
                Err(e) => {
                    &&& e == BusError::Device
                    &&& t.len() <= w.len()
                    &&& n == t.last()
                    &&& !spec_from_ram_ok(t.last(), port, w[t.len() - 1])
                },
            }
    }
}

/// A linked-list transfer stopped by a word the GPU could not take meets
/// its contract.
proof fn lemma_ll_post_device(o: MemoryBus, t: Seq<MemoryBus>, port: Port, w: Seq<u32>)
    requires
        port == Port::Gpu,
        o.dma.channels[port.spec_index()].direction != Direction::ToRam,
        w == spec_ll_walk(o.ram.data@, o.dma.channels[port.spec_index()].base & 0x1ffffc, spec_ll_max_packets()).0,
        spec_words_trace(o, t, port, w),
        t.len() <= w.len(),
        !spec_from_ram_ok(t.last(), port, w[t.len() - 1]),
    ensures
        spec_ll_post(o, t.last(), port, Err::<(), BusError>(BusError::Device)),
{
    let r = Err::<(), BusError>(BusError::Device);
    assert(exists|t2: Seq<MemoryBus>|
        #[trigger] spec_words_trace(o, t2, port, w) && match r {
            Ok(_) => false,
            Err(BusError::DmaLoop) => false,
            Err(e) => {
                &&& e == BusError::Device
                &&& t2.len() <= w.len()
                &&& t.last() == t2.last()
                &&& !spec_from_ram_ok(t2.last(), port, w[t2.len() - 1])
            },
        });
}

/// One more word extends the trace of a transfer.
proof fn lemma_words_trace_extend(o: MemoryBus, t: Seq<MemoryBus>, n: MemoryBus, port: Port, w: Seq<u32>, word: u32)
    requires
        spec_words_trace(o, t, port, w),
        t.len() == w.len() + 1,
        spec_from_ram_ok(t.last(), port, word),
        spec_from_ram_post(t.last(), n, port, word),
    ensures
        spec_words_trace(o, t.push(n), port, w.push(word)),
{
    let t2 = t.push(n);
    let w2 = w.push(word);
    assert(t2[0] == o && t2.len() == w2.len() + 1);
    assert forall|j: int| 0 <= j < t2.len() - 1 implies #[trigger] spec_word_step(t2[j], t2[j + 1], port, w2[j]) by {
        if j < t.len() - 1 {
            assert(t2[j] == t[j] && t2[j + 1] == t[j + 1] && w2[j] == w[j]);
            assert(spec_word_step(t[j], t[j + 1], port, w[j]));
        } else {
            assert(t2[j] == t.last() && t2[j + 1] == n && w2[j] == word);
        }
    }
}

/// A trace over a prefix of the words is a trace over all of them.
proof fn lemma_words_trace_prefix(o: MemoryBus, t: Seq<MemoryBus>, port: Port, w: Seq<u32>, rest: Seq<u32>)
    requires
        spec_words_trace(o, t, port, w),
        t.len() == w.len() + 1,
    ensures
        spec_words_trace(o, t, port, w + rest),
{
    let w2 = w + rest;
    assert(w2.len() == w.len() + rest.len());
    assert forall|j: int| 0 <= j < t.len() - 1 implies #[trigger] spec_word_step(t[j], t[j + 1], port, w2[j]) by {
        assert(w2[j] == w[j]);
        assert(spec_word_step(t[j], t[j + 1], port, w[j]));
    }
}

/// A block transfer that stopped at a step it could not make meets its
/// contract.
proof fn lemma_block_post_stopped(o: MemoryBus, t: Seq<MemoryBus>, port: Port, cnt: u32)
    requires
        o.dma.channels[port.spec_index()].spec_transfer_size() == Some(cnt),
        spec_block_trace(o, t, port, o.dma.channels[port.spec_index()], cnt),
        t.len() <= cnt,
        !spec_block_ok(t.last(), port, o.dma.channels[port.spec_index()], t.len() - 1),
    ensures
        spec_block_post(o, t.last(), port, Err::<(), BusError>(BusError::Device)),
{
    let c = o.dma.channels[port.spec_index()];
    let r = Err::<(), BusError>(BusError::Device);
    assert(exists|t2: Seq<MemoryBus>|
        #[trigger] spec_block_trace(o, t2, port, c, cnt) && t2.len() <= cnt + 1 && (if r is Ok { true } else {
            &&& r == Err::<(), BusError>(BusError::Device)
            &&& t2.len() <= cnt
            &&& t.last() == t2.last()
            &&& !spec_block_ok(t2.last(), port, c, t2.len() - 1)
        }));
    assert(match c.spec_transfer_size() {
        Some(k) => k == cnt,
        None => false,
    });
}

/// One more step moves the address register by one word.
proof fn lemma_block_addr_step(c: Channel, k: int)
    requires
        k >= 0,
    ensures
        spec_block_addr(c, k + 1) == spec_block_addr(c, k).wrapping_add(
            if c.step == Step::Increment { 4u32 } else { 0xffff_fffcu32 },
        ),
        spec_block_addr(c, 0) == c.base,
{
    let inc: int = if c.step == Step::Increment { 4int } else { 0xffff_fffcint };
    let x = c.base as int + k * inc;
    assert(k * inc >= 0) by (nonlinear_arith)
        requires
            k >= 0,
            inc >= 0,
    ;
    assert((k + 1) * inc == k * inc + inc) by (nonlinear_arith);
    vstd::arithmetic::div_mod::lemma_add_mod_noop(x, inc, 0x1_0000_0000);
    vstd::arithmetic::div_mod::lemma_small_mod(inc as nat, 0x1_0000_0000);
    vstd::arithmetic::div_mod::lemma_small_mod(c.base as nat, 0x1_0000_0000);
    let y = x % 0x1_0000_0000;
    assert(0 <= y < 0x1_0000_0000) by {
        vstd::arithmetic::div_mod::lemma_mod_bound(x, 0x1_0000_0000);
    }
    if y + inc >= 0x1_0000_0000 {
        vstd::arithmetic::div_mod::lemma_mod_add_multiples_vanish(y + inc - 0x1_0000_0000, 0x1_0000_0000);
        vstd::arithmetic::div_mod::lemma_small_mod((y + inc - 0x1_0000_0000) as nat, 0x1_0000_0000);
    } else {
        vstd::arithmetic::div_mod::lemma_small_mod((y + inc) as nat, 0x1_0000_0000);
    }
}

/// What a `w`-wide store of `v` to `addr` does (`o` becomes `n`), for the
/// devices whose effect is stated here; `r` tells whether it could be made.
pub open spec fn spec_store_post(o: MemoryBus, n: MemoryBus, addr: u32, w: AccessWidth, v: u32, r: Result<(), BusError>) -> bool {
    let a = spec_mask_region(addr);
    let (region, off) = spec_store_region(a);
    if !spec_aligned(a, w) {
        r == Err::<(), BusError>(BusError::Unaligned) && n == o
    } else {
        match region {
            Region::Ram => r is Ok && n == (MemoryBus { ram: Ram { data: n.ram.data }, ..o })
                && n.ram.data@ == spec_write_le(o.ram.data@, off as int, w, v),
            Region::Scratchpad => r is Ok && n == (MemoryBus { scratchpad: Scratchpad { data: n.scratchpad.data }, ..o })
                && n.scratchpad.data@ == spec_write_le(o.scratchpad.data@, off as int, w, v),
            Region::Gpu => if w == AccessWidth::Word && (off == 0 || off == 4) && (off == 0 ==> (o.gpu.gp0_words_remaining
                == 0 ==> crate::gpu::spec_gp0_decode(v >> 24u32) is Some)) && (off == 4 ==> crate::gpu::spec_gp1_supported(v)) {
                &&& r is Ok
                &&& spec_same_except(o, n, true, false, false, false)
                &&& off == 0 ==> crate::gpu::spec_gp0_post(o.gpu, n.gpu, v)
                &&& off == 4 ==> n.gpu.regs == crate::gpu::spec_gp1_regs(o.gpu.regs, v)
            } else {
                r == Err::<(), BusError>(BusError::Device) && n == o
            },
            Region::IrqControl => if off == 0 || off == 4 {
                &&& r is Ok
                &&& spec_same_except(o, n, false, false, false, true)
                &&& off == 0 ==> n.irqctl.status.0 == o.irqctl.status.0 & v && n.irqctl.mask == o.irqctl.mask
                &&& off == 4 ==> n.irqctl.mask == v && n.irqctl.status.0 == o.irqctl.status.0
            } else {
                r == Err::<(), BusError>(BusError::Device) && n == o
            },
            Region::MemCtrl => if (off == 0 && v != 0x1f000000) || (off == 4 && v != 0x1f802000) {
                r == Err::<(), BusError>(BusError::Device) && n == o
            } else {
                r is Ok && n == o
            },
            Region::RamSize => r is Ok && n == o,
            Region::CacheControl => r is Ok && n == o,
            Region::Expansion2 => r is Ok && n == o,
            Region::Spu => {
                &&& spec_spu_store(o.spu, n.spu, addr, v as u16, spec_spu_part(r))
                &&& (r is Ok || r matches Err(BusError::Spu(_)))
                &&& n == (MemoryBus { spu: n.spu, ..o })
            },
            Region::Dma => if w != AccessWidth::Word {
                r == Err::<(), BusError>(BusError::Device) && n == o
            } else {
                spec_dma_reg_write(o, n, off, v, r)
            },
            Region::Joystick => if !(off == 0 || off == 8 || off == 0xa || off == 0xe) {
                r == Err::<(), BusError>(BusError::Device) && n == o
            } else if !(o.scheduler.view().len() <= 30 && o.scheduler.cycle < crate::scheduler::CYCLE_LIMIT) {
                r == Err::<(), BusError>(BusError::SchedulerFull) && n == o
            } else {
                &&& n == (MemoryBus { sio: n.sio, scheduler: n.scheduler, ..o })
                &&& spec_sio_store(o.sio, n.sio, o.scheduler, n.scheduler, off, v, r is Ok)
                &&& (r is Ok || r == Err::<(), BusError>(BusError::Device))
            },
            Region::Timers => if !(off & 0xf == 0 || off & 0xf == 4 || off & 0xf == 8) {
                r == Err::<(), BusError>(BusError::Device) && n == o
            } else if !(o.scheduler.view().len() < 32 && o.scheduler.cycle < crate::scheduler::CYCLE_LIMIT) {
                r == Err::<(), BusError>(BusError::SchedulerFull) && n == o
            } else {
                &&& n == (MemoryBus { timers: n.timers, scheduler: n.scheduler, ..o })
                &&& spec_timers_store(o.timers, n.timers, o.scheduler, n.scheduler, off, v, o.scheduler.cycle, r is Ok)
                &&& (r is Ok || r == Err::<(), BusError>(BusError::Device))
            },
            Region::CdRom => {
                &&& spec_cdrom_store(o, n, off, w, v, spec_cd_store_part(r))
                &&& (r is Ok || r matches Err(BusError::CdRom(_)))
            },
            _ => r == Err::<(), BusError>(BusError::Unhandled) && n == o,
        }
    }
}

impl MemoryBus {
    /// Writes `value` at `addr`.
    #[verifier::rlimit(60)]
    pub fn store<T: Addressable>(&mut self, addr: u32, value: T) -> (r: Result<(), BusError>)
        requires
            old(self).wf(),
        ensures
            final(self).wf(),
            spec_store_post(*old(self), *final(self), addr, T::spec_width(), value.spec_as_u32(), r),
    {
        let w = T::width();
        let a = mask_region(addr);
        if !is_aligned(a, w) {
            return Err(BusError::Unaligned);
        }
        if let Some(off) = ram().contains(a) {
            proof {
                crate::bitfacts::lemma_offset_fits(a as int, 0, RAM_BYTES as int, w.spec_bytes() as int);
            }
            self.ram.store(off, value);
            return Ok(());
        }
        if let Some(off) = gpu().contains(a) {
            if self.gpu.can_store::<T>(off, value) {
                self.gpu.store(off, value);
                return Ok(());
            }
            return Err(BusError::Device);
        }
        if let Some(off) = dma().contains(a) {
            if w != AccessWidth::Word {
                return Err(BusError::Device);
            }
            return self.set_dma_reg(off, value.as_u32());
        }
        if let Some(off) = scratchpad().contains(a) {
            proof {
                crate::bitfacts::lemma_offset_fits(a as int, 0x1f80_0000, SCRATCHPAD_BYTES as int, w.spec_bytes() as int);
            }
            self.scratchpad.store(off, value);
            return Ok(());
        }
        if let Some(_) = spu().contains(a) {
            return match self.spu.store(addr, value) {
                Ok(u) => Ok(u),
                Err(e) => Err(BusError::Spu(e)),
            };
        }
        if let Some(off) = joystick().contains(a) {
            if !(off == 0 || off == 8 || off == 0xa || off == 0xe) {
                return Err(BusError::Device);
            }
            if !(tasks_len(&self.scheduler) <= 30 && self.scheduler.cycle < crate::scheduler::CYCLE_LIMIT) {
                return Err(BusError::SchedulerFull);
            }
            if self.sio.store(off, value, &mut self.scheduler) {
                return Ok(());
            }
            return Err(BusError::Device);
        }
        if let Some(off) = timers().contains(a) {
            let reg = off & 0xf;
            if !(reg == 0 || reg == 4 || reg == 8) {
                return Err(BusError::Device);
            }
            if !(tasks_len(&self.scheduler) < 32 && self.scheduler.cycle < crate::scheduler::CYCLE_LIMIT) {
                return Err(BusError::SchedulerFull);
            }
            proof {
                crate::bitfacts::lemma_counter_of(off);
            }
            let cycle = self.scheduler.cycle;
            if self.timers.store(off, value, cycle, &mut self.scheduler) {
                return Ok(());
            }
            return Err(BusError::Device);
        }
        if let Some(off) = cdrom().contains(a) {
            return match CDRom::store(self, off, value) {
                Ok(u) => Ok(u),
                Err(e) => Err(BusError::CdRom(e)),
            };
        }
        if let Some(off) = mem_ctrl().contains(a) {
            let val = value.as_u32();
            if (off == 0 && val != 0x1f000000) || (off == 4 && val != 0x1f802000) {
                return Err(BusError::Device);
            }
            return Ok(());
        }
        if let Some(_) = ram_size().contains(a) {
            return Ok(());
        }
        if let Some(_) = cache_control().contains(a) {
            return Ok(());
        }
        if let Some(off) = irq_control().contains(a) {
            if off == 0 || off == 4 {
                self.irqctl.store(off, value);
                return Ok(());
            }
            return Err(BusError::Device);
        }
        if let Some(_) = expansion_2().contains(a) {
            return Ok(());
        }
        Err(BusError::Unhandled)
    }

    /// Writes DMA register `offset`; a write that makes a channel active runs
    /// its transfer.
    pub fn set_dma_reg(&mut self, offset: u32, value: u32) -> (r: Result<(), BusError>)
        requires
            old(self).wf(),
        ensures
            final(self).wf(),
            spec_dma_reg_write(*old(self), *final(self), offset, value, r),
    {
        let major = (offset & 0x70) >> 4;
        let minor = offset & 0xf;
        if major < 7 {
            proof {
                crate::bitfacts::lemma_and_le_u32(offset, 0x70);
            }
            let port = Port::from_index(major as u8);
            let i = port.index();
            let mut c = self.dma.channels[i];
            let ghost before = self.dma.channels@;
            if minor == 0 {
                c.set_base(value);
            } else if minor == 4 {
                c.set_block_control(value);
            } else if minor == 8 {
                if !c.set_control(value) {
                    return Err(BusError::Device);
                }
            } else {
                return Err(BusError::Device);
            }
            self.dma.channels[i] = c;
            assert(self.dma.channels@ =~= before.update(major as int, c));
            if c.active() {
                return self.do_dma(port);
            }
            Ok(())
        } else if minor == 0 {
            self.dma.set_control(value);
            Ok(())
        } else if minor == 4 {
            self.dma.set_interrupt(value);
            Ok(())
        } else {
            Err(BusError::Device)
        }
    }

    /// Runs the transfer of the channel of `port`.
    pub fn do_dma(&mut self, port: Port) -> (r: Result<(), BusError>)
        requires
            old(self).wf(),
        ensures
            final(self).wf(),
            final(self).bios == old(self).bios && final(self).scratchpad == old(self).scratchpad,
            final(self).irqctl == old(self).irqctl && final(self).scheduler == old(self).scheduler,
            final(self).timers == old(self).timers && final(self).sio == old(self).sio,
    {
        match self.dma.channel(port).sync() {
            Sync::LinkedList => self.do_dma_linked_list(port),
            _ => self.do_dma_block(port),
        }
    }

    /// Moves one word from RAM at `addr` to the device of `port`.
    fn dma_word_from_ram(&mut self, port: Port, addr: u32) -> (r: Result<(), BusError>)
        requires
            old(self).wf(),
            addr <= 0x1ffffc,
            addr % 4 == 0,
        ensures
            final(self).wf(),
            ({
                let word = spec_read_le(old(self).ram.data@, addr as int, AccessWidth::Word);
                &&& spec_from_ram_ok(*old(self), port, word) ==> r is Ok && spec_from_ram_post(*old(self), *final(self), port, word)
                &&& !spec_from_ram_ok(*old(self), port, word) ==> r == Err::<(), BusError>(BusError::Device) && *final(self) == *old(self)
            }),
    {
        let word = self.ram.load::<u32>(addr);
        match port {
            Port::Gpu => {
                if self.gpu.can_store::<u32>(0, word) {
                    self.gpu.gp0(word);
                    Ok(())
                } else {
                    Err(BusError::Device)
                }
            },
            Port::Spu => {
                proof {
                    crate::bitfacts::lemma_and_le_usize(self.spu.current_address, 0x7_ffff);
                }
                if (self.spu.current_address & 0x7_ffff) + 4 <= SOUND_RAM_BYTES && self.spu.current_address <= usize::MAX - 4 {
                    self.spu.ram_write::<4>(word);
                    Ok(())
                } else {
                    Err(BusError::Device)
                }
            },
            _ => Err(BusError::Device),
        }
    }

    /// Runs a block (manual or on-request) transfer of the channel of
    /// `port`: RAM words to the GPU or the SPU, or GPU or ordering-table
    /// words to RAM, one word per step from the base address up or down;
    /// then the channel stops. A word that the device cannot take stops the
    /// transfer there.
    pub fn do_dma_block(&mut self, port: Port) -> (r: Result<(), BusError>)
        requires
            old(self).wf(),
        ensures
            final(self).wf(),
            final(self).bios == old(self).bios && final(self).scratchpad == old(self).scratchpad,
            final(self).irqctl == old(self).irqctl && final(self).scheduler == old(self).scheduler,
            final(self).timers == old(self).timers && final(self).sio == old(self).sio,
            spec_block_post(*old(self), *final(self), port, r),
    {
        let i = port.index();
        let channel = self.dma.channels[i];
        let increment: u32 = match channel.step() {
            Step::Increment => 4,
            Step::Decrement => 0xffff_fffc,
        };
        let mut addr = channel.base();
        let cnt = match channel.transfer_size() {
            Some(n) => n,
            None => return Err(BusError::Device),
        };
        let mut remsz = cnt;
        let ghost mut trace: Seq<MemoryBus> = seq![*self];
        proof {
            lemma_block_addr_step(channel, 0);
        }
        while remsz > 0
            invariant
                self.wf(),
                self.bios == old(self).bios && self.scratchpad == old(self).scratchpad,
                self.irqctl == old(self).irqctl && self.scheduler == old(self).scheduler,
                self.timers == old(self).timers && self.sio == old(self).sio,
                self.dma == old(self).dma,
                channel == old(self).dma.channels[port.spec_index()],
                channel.spec_transfer_size() == Some(cnt),
                i == port.spec_index(),
                increment == (if channel.step == Step::Increment { 4u32 } else { 0xffff_fffcu32 }),
                remsz <= cnt,
                addr == spec_block_addr(channel, cnt - remsz),
                spec_block_trace(*old(self), trace, port, channel, cnt),
                trace.len() == cnt - remsz + 1,
                trace.last() == *self,
            decreases remsz,
        {
            let ghost k = (cnt - remsz) as int;
            let ghost m = *self;
            let cur_addr = addr & 0x1ffffc;
            proof {
                crate::bitfacts::lemma_word_addr(addr);
            }
            match channel.direction() {
                Direction::FromRam => {
                    let res = self.dma_word_from_ram(port, cur_addr);
                    if res.is_err() {
                        proof {
                            lemma_block_post_stopped(*old(self), trace, port, cnt);
                        }
                        return res;
                    }
                },
                Direction::ToRam => {
                    let src_word = match port {
                        Port::Otc => if remsz == 1 {
                            0xffffff
                        } else {
                            addr.wrapping_sub(4) & 0x1fffff
                        },
                        Port::Gpu => {
                            if !self.gpu.can_load::<u32>(0) {
                                proof {
                                    lemma_block_post_stopped(*old(self), trace, port, cnt);
                                }
                                return Err(BusError::Device);
                            }
                            self.gpu.read()
                        },
                        _ => {
                            proof {
                                lemma_block_post_stopped(*old(self), trace, port, cnt);
                            }
                            return Err(BusError::Device);
                        },
                    };
                    self.ram.store::<u32>(cur_addr, src_word);
                },
            }
            proof {
                lemma_block_addr_step(channel, k);
                assert(spec_block_ok(m, port, channel, k));
                assert(spec_block_step(m, *self, port, channel, cnt, k));
                lemma_block_trace_extend(*old(self), trace, *self, port, channel, cnt);
                trace = trace.push(*self);
            }
            addr = addr.wrapping_add(increment);
            remsz = remsz - 1;
        }
        let ghost m = *self;
        let mut c = self.dma.channels[i];
        c.done();
        self.dma.channels[i] = c;
        proof {
            assert(self.dma.channels@ =~= m.dma.channels@.update(i as int, Channel { enable: false, trigger: false, ..channel }));
            assert(spec_block_trace(*old(self), trace, port, channel, cnt));
        }
        Ok(())
    }

    /// Runs a linked-list transfer of the channel of `port` (GPU only): each
    /// packet's header gives its word count and the next packet, until the
    /// end marker. A list that visits more packets than RAM holds words
    /// runs in a circle and is reported as such.
    pub fn do_dma_linked_list(&mut self, port: Port) -> (r: Result<(), BusError>)
        requires
            old(self).wf(),
        ensures
            final(self).wf(),
            final(self).bios == old(self).bios && final(self).scratchpad == old(self).scratchpad,
            final(self).irqctl == old(self).irqctl && final(self).scheduler == old(self).scheduler,
            final(self).timers == old(self).timers && final(self).sio == old(self).sio,
            final(self).ram == old(self).ram,
            spec_ll_post(*old(self), *final(self), port, r),
    {
        let i = port.index();
        let channel = self.dma.channels[i];
        if channel.direction() == Direction::ToRam || port != Port::Gpu {
            return Err(BusError::Device);
        }
        let mut addr = channel.base() & 0x1ffffc;
        proof {
            crate::bitfacts::lemma_word_addr(channel.base);
        }
        let ghost ram = self.ram.data@;
        let ghost total = spec_ll_walk(ram, addr, spec_ll_max_packets());
        let ghost mut sent: Seq<u32> = Seq::empty();
        let ghost mut trace: Seq<MemoryBus> = seq![*self];
        proof {
            assert(sent + spec_ll_walk(ram, addr, spec_ll_max_packets()).0 =~= total.0);
        }
        let mut packets: u32 = 0;
        loop
            invariant_except_break
                sent + spec_ll_walk(ram, addr, (spec_ll_max_packets() - packets) as nat).0 == total.0,
                spec_ll_walk(ram, addr, (spec_ll_max_packets() - packets) as nat).1 == total.1,
            invariant
                self.wf(),
                self.bios == old(self).bios && self.scratchpad == old(self).scratchpad,
                self.irqctl == old(self).irqctl && self.scheduler == old(self).scheduler,
                self.timers == old(self).timers && self.sio == old(self).sio,
                self.ram == old(self).ram,
                self.dma == old(self).dma,
                ram == old(self).ram.data@,
                channel == old(self).dma.channels[port.spec_index()],
                channel.direction != Direction::ToRam && port == Port::Gpu,
                total == spec_ll_walk(ram, channel.base & 0x1ffffc, spec_ll_max_packets()),
                i == port.spec_index(),
                addr <= 0x1ffffc && addr % 4 == 0,
                packets <= 0x80000,
                spec_words_trace(*old(self), trace, port, sent),
                trace.len() == sent.len() + 1,
                trace.last() == *self,
            ensures
                sent == total.0,
                total.1,
            decreases 0x80000 - packets,
        {
            if packets == 0x80000 {
                proof {
                    assert(sent =~= total.0);
                }
                return Err(BusError::DmaLoop);
            }
            let ghost fuel = (spec_ll_max_packets() - packets) as nat;
            packets = packets + 1;
            let header = self.ram.load::<u32>(addr);
            let ghost tail: Seq<u32> = if header & 0x800000 != 0 {
                Seq::empty()
            } else {
                spec_ll_walk(ram, header & 0x1ffffc, (fuel - 1) as nat).0
            };
            let ghost a0 = addr;
            proof {
                assert(spec_ll_walk(ram, a0, fuel).0 =~= spec_ll_body(ram, a0, (header >> 24u32) as nat) + tail);
                assert(sent + (spec_ll_body(ram, a0, (header >> 24u32) as nat) + tail) =~= total.0);
            }
            let mut remsz = header >> 24;
            while remsz > 0
                invariant
                    self.wf(),
                    self.bios == old(self).bios && self.scratchpad == old(self).scratchpad,
                    self.irqctl == old(self).irqctl && self.scheduler == old(self).scheduler,
                    self.timers == old(self).timers && self.sio == old(self).sio,
                    self.ram == old(self).ram,
                    self.dma == old(self).dma,
                    ram == old(self).ram.data@,
                    port == Port::Gpu,
                    channel == old(self).dma.channels[port.spec_index()],
                    channel.direction != Direction::ToRam,
                    total == spec_ll_walk(ram, channel.base & 0x1ffffc, spec_ll_max_packets()),
                    addr <= 0x1ffffc && addr % 4 == 0,
                    sent + (spec_ll_body(ram, addr, remsz as nat) + tail) == total.0,
                    spec_words_trace(*old(self), trace, port, sent),
                    trace.len() == sent.len() + 1,
                    trace.last() == *self,
                decreases remsz,
            {
                let next = (addr + 4) & 0x1ffffc;
                proof {
                    crate::bitfacts::lemma_word_addr((addr + 4) as u32);
                }
                let ghost rest = spec_ll_body(ram, next, (remsz - 1) as nat);
                let ghost word = spec_read_le(ram, next as int, AccessWidth::Word);
                proof {
                    assert(spec_ll_body(ram, addr, remsz as nat) == seq![word] + rest);
                    assert(total.0 =~= sent.push(word) + (rest + tail));
                    assert(total.0[sent.len() as int] == word);
                }
                addr = next;
                let ghost m = *self;
                let res = self.dma_word_from_ram(port, addr);
                if res.is_err() {
                    proof {
                        let w = total.0;
                        assert(w =~= sent + w.subrange(sent.len() as int, w.len() as int));
                        lemma_words_trace_prefix(*old(self), trace, port, sent, w.subrange(sent.len() as int, w.len() as int));
                        assert(spec_words_trace(*old(self), trace, port, w));
                        lemma_ll_post_device(*old(self), trace, port, w);
                    }
                    return res;
                }
                proof {
                    lemma_words_trace_extend(*old(self), trace, *self, port, sent, word);
                    trace = trace.push(*self);
                    sent = sent.push(word);
                }
                remsz = remsz - 1;
            }
            if header & 0x800000 != 0 {
                proof {
                    assert(sent =~= total.0);
                    assert(spec_ll_walk(ram, a0, fuel).1);
                }
                break;
            }
            let next = header & 0x1ffffc;
            proof {
                crate::bitfacts::lemma_word_addr(header);
                assert(sent + spec_ll_walk(ram, next, (fuel - 1) as nat).0 =~= total.0);
            }
            addr = next;
        }
        let ghost m = *self;
        let mut c = self.dma.channels[i];
        c.done();
        self.dma.channels[i] = c;
        proof {
            assert(self.dma.channels@ =~= m.dma.channels@.update(i as int, Channel { enable: false, trigger: false, ..channel }));
        }
        Ok(())
    }
}

/// Number of pending events.
fn tasks_len(s: &Scheduler) -> (r: usize)
    ensures
        r == s.view().len(),
{
    crate::arrayvec_specs::tasks32_len(&s.tasks)
}

} // verus!
