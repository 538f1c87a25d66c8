//! What the machine does when a scheduled event falls due.
use vstd::prelude::*;
use crate::cdrom::ResponseType;
use crate::cdrom_controller::{spec_process_response, CDRom, CdRomError};
use crate::gpu::{spec_ctx, Gpu, GpuRegs};
use crate::irq::with_bit;
use crate::memory_bus::MemoryBus;
use crate::renderer_msg::RendererMsg;
use crate::scheduler::Event;
use crate::spu::{spec_spu_clock, spec_spu_mix_bus, Spu};
use crate::spu_voice::SpuError;
use crate::timers::{spec_exit_hsync, spec_enter_hsync, spec_enter_vsync, spec_exit_vsync, spec_bit, spec_counter_ok, spec_halted, spec_irq_plan, spec_planned, spec_sched_room, Mode, SyncMode, Timer, Timers};

verus! {

/// Why the machine cannot go on after an event.
#[derive(Clone, Copy, PartialEq, Eq, Structural, Debug)]
pub enum MachineError {
    /// The sound processor failed.
    Spu(SpuError),
    /// The CD-ROM controller failed.
    CdRom(CdRomError),
    /// A timer event names no counter, or counter 0 is in a state that
    /// cannot be scheduled.
    Timer,
    /// The event queue is full.
    SchedulerFull,
    /// The horizontal blank count would overflow.
    HBlanks,
}

/// What the caller is to do after an event.
#[derive(Clone, Copy, PartialEq, Eq, Structural, Debug)]
pub enum EventOutcome {
    /// Nothing.
    Nothing,
    /// Play this stereo sample (left, right).
    AudioSample(i16, i16),
    /// Vertical blank began: the GPU has asked for the frame to be shown.
    FrameReady,
    /// Vertical blank ended: the frame is over.
    FrameEnd,
}

/// The CD-ROM controller's part of an event result.
pub open spec fn spec_cd_part(r: Result<EventOutcome, MachineError>) -> Result<(), CdRomError> {
    match r {
        Ok(_) => Ok(()),
        Err(MachineError::CdRom(e)) => Err(e),
        Err(_) => Err(CdRomError::Register),
    }
}

/// What event `event` does to the bus (`o` becomes `n`) and asks of the
/// caller (`r`).
pub open spec fn spec_handle_event(o: MemoryBus, n: MemoryBus, event: Event, display_vram: bool, r: Result<EventOutcome, MachineError>) -> bool {
    match event {
        Event::SpuTick => match r {
            Ok(EventOutcome::AudioSample(l, rr)) => exists|m: MemoryBus|
                #[trigger] spec_spu_clock(o, m, Ok(())) && spec_spu_mix_bus(m, n, [l, rr]),
            Err(MachineError::Spu(e)) => spec_spu_clock(o, n, Err(e)),
            _ => false,
        },
        Event::VBlankStart => {
            &&& r == Ok::<EventOutcome, MachineError>(EventOutcome::FrameReady)
            &&& n.irqctl.status.0 == with_bit(o.irqctl.status.0, 0, true)
            &&& n.irqctl.mask == o.irqctl.mask
            &&& n.gpu.outbox@ == o.gpu.outbox@.push(RendererMsg::RenderFB { full_ram: display_vram, ctx: spec_ctx(o.gpu.regs) })
            &&& n.gpu == (Gpu {
                outbox: n.gpu.outbox,
                regs: GpuRegs { interrupt: true, in_vblank: true, even: !o.gpu.regs.even, ..o.gpu.regs },
                ..o.gpu
            })
            &&& spec_enter_vsync(o.timers, n.timers, o.scheduler.cycle)
            &&& n == (MemoryBus { gpu: n.gpu, timers: n.timers, irqctl: n.irqctl, ..o })
        },
        Event::VBlankEnd => {
            &&& r == Ok::<EventOutcome, MachineError>(EventOutcome::FrameEnd)
            &&& n.gpu == (Gpu { regs: GpuRegs { in_vblank: false, ..o.gpu.regs }, ..o.gpu })
            &&& spec_exit_vsync(o.timers, n.timers)
            &&& n == (MemoryBus { gpu: n.gpu, timers: n.timers, ..o })
        },
        Event::HBlankStart => if o.timers.hblanks == u32::MAX {
            r == Err::<EventOutcome, MachineError>(MachineError::HBlanks) && n == o
        } else {
            &&& r == Ok::<EventOutcome, MachineError>(EventOutcome::Nothing)
            &&& n.gpu == (Gpu {
                regs: GpuRegs {
                    in_hblank: true,
                    even: if o.gpu.regs.interlaced { o.gpu.regs.even } else { !o.gpu.regs.even },
                    ..o.gpu.regs
                },
                ..o.gpu
            })
            &&& spec_enter_hsync(o.timers, n.timers, o.scheduler.cycle)
            &&& n == (MemoryBus { gpu: n.gpu, timers: n.timers, ..o })
        },
        Event::HBlankEnd => if !spec_sched_room(o.scheduler) {
            r == Err::<EventOutcome, MachineError>(MachineError::SchedulerFull) && n == o
        } else {
            &&& r == if r is Ok {
                Ok::<EventOutcome, MachineError>(EventOutcome::Nothing)
            } else {
                Err::<EventOutcome, MachineError>(MachineError::Timer)
            }
            &&& spec_exit_hsync(o.timers, n.timers, o.scheduler.cycle, o.scheduler, n.scheduler, r is Ok)
            &&& n.gpu == (Gpu { regs: GpuRegs { in_hblank: false, ..o.gpu.regs }, ..o.gpu })
            &&& n == (MemoryBus { gpu: n.gpu, timers: n.timers, scheduler: n.scheduler, ..o })
        },
        Event::CDRomResultIrq(res) => {
            &&& spec_process_response(o, n, res, spec_cd_part(r))
            &&& r is Ok ==> r == Ok::<EventOutcome, MachineError>(EventOutcome::Nothing)
            &&& r is Err ==> r matches Err(MachineError::CdRom(_))
        },
        Event::Timer(t) => if t.which >= 3 {
            r == Err::<EventOutcome, MachineError>(MachineError::Timer) && n == o
        } else {
            let w = t.which as int;
            let m = o.timers.timers[w].mode.0;
            let raise = !t.toggle || spec_bit(m, 10);
            &&& r == Ok::<EventOutcome, MachineError>(EventOutcome::Nothing)
            &&& forall|i: int| 0 <= i < 3 && i != w ==> #[trigger] n.timers.timers[i] == o.timers.timers[i]
            &&& n.timers.timers[w] == (Timer { mode: Mode(with_bit(m, 10, !t.toggle || !spec_bit(m, 10))), ..o.timers.timers[w] })
            &&& n.timers == (Timers { timers: n.timers.timers, ..o.timers })
            &&& n.irqctl.mask == o.irqctl.mask
            &&& n.irqctl.status.0 == if raise { with_bit(o.irqctl.status.0, (4 + w) as u32, true) } else { o.irqctl.status.0 }
            &&& n == (MemoryBus { timers: n.timers, irqctl: n.irqctl, ..o })
        },
        Event::SerialSend => {
            &&& r == Ok::<EventOutcome, MachineError>(EventOutcome::Nothing)
            &&& n.sio.status == with_bit(o.sio.status, 9, true)
            &&& n.irqctl.status.0 == with_bit(o.irqctl.status.0, 7, true)
            &&& n.irqctl.mask == o.irqctl.mask
            &&& n == (MemoryBus { sio: n.sio, irqctl: n.irqctl, ..o })
        },
        Event::DsrOff => {
            &&& r == Ok::<EventOutcome, MachineError>(EventOutcome::Nothing)
            &&& n.sio.status == with_bit(o.sio.status, 7, false)
            &&& n == (MemoryBus { sio: n.sio, ..o })
        },
    }
}

/// Carries out an event that fell due: an SPU tick mixes a sample (with
/// the CD audio), the blanking events drive the GPU and the timers (the
/// start of vertical blank raising IRQ0 and asking for the frame), a
/// CD-ROM response is delivered, a timer or serial interrupt is raised,
/// the memory card's DSR line drops.
pub fn handle_event(bus: &mut MemoryBus, event: Event, display_vram: bool) -> (r: Result<EventOutcome, MachineError>)
    requires
        old(bus).wf(),
    ensures
        final(bus).wf(),
        spec_handle_event(*old(bus), *final(bus), event, display_vram, r),
{
    match event {
        Event::SpuTick => spu_tick(bus),
        Event::VBlankStart => vblank_start(bus, display_vram),
        Event::VBlankEnd => vblank_end(bus),
        Event::HBlankStart => hblank_start(bus),
        Event::HBlankEnd => hblank_end(bus),
        Event::CDRomResultIrq(res) => {
            match CDRom::process_response(bus, res) {
                Ok(()) => Ok(EventOutcome::Nothing),
                Err(e) => Err(MachineError::CdRom(e)),
            }
        },
        Event::Timer(t) => {
            if t.which >= 3 {
                return Err(MachineError::Timer);
            }
            bus.timers.process_interrupt(t, &mut bus.irqctl);
            Ok(EventOutcome::Nothing)
        },
        Event::SerialSend => {
            bus.sio.process_serial_send(&mut bus.irqctl);
            Ok(EventOutcome::Nothing)
        },
        Event::DsrOff => {
            bus.sio.turn_dsr_off();
            Ok(EventOutcome::Nothing)
        },
    }
}

/// An SPU tick: the SPU steps, then mixes a sample with the CD audio.
fn spu_tick(bus: &mut MemoryBus) -> (r: Result<EventOutcome, MachineError>)
    requires
        old(bus).wf(),
    ensures
        final(bus).wf(),
        spec_handle_event(*old(bus), *final(bus), Event::SpuTick, false, r),
{
    match Spu::clock(bus) {
        Ok(()) => {},
        Err(e) => {
            return Err(MachineError::Spu(e));
        },
    }
    let ghost m = *bus;
    let sample = bus.spu.mix(&mut bus.cdrom);
    proof {
        assert(sample == [sample[0], sample[1]]);
        assert(spec_spu_clock(*old(bus), m, Ok(())));
    }
    Ok(EventOutcome::AudioSample(sample[0], sample[1]))
}

/// Vertical blanking starts: the frame is asked for, IRQ0 raised, the
/// timers and the GPU told.
fn vblank_start(bus: &mut MemoryBus, display_vram: bool) -> (r: Result<EventOutcome, MachineError>)
    requires
        old(bus).wf(),
    ensures
        final(bus).wf(),
        spec_handle_event(*old(bus), *final(bus), Event::VBlankStart, display_vram, r),
{
    bus.gpu.render_fb(display_vram);
    bus.irqctl.status.set_vblank(true);
    let cycle = bus.scheduler.cycle;
    bus.timers.enter_vsync(cycle);
    bus.gpu.enter_vsync();
    Ok(EventOutcome::FrameReady)
}

/// Vertical blanking ends.
fn vblank_end(bus: &mut MemoryBus) -> (r: Result<EventOutcome, MachineError>)
    requires
        old(bus).wf(),
    ensures
        final(bus).wf(),
        spec_handle_event(*old(bus), *final(bus), Event::VBlankEnd, false, r),
{
    bus.gpu.exit_vsync();
    bus.timers.exit_vsync();
    Ok(EventOutcome::FrameEnd)
}

/// Horizontal blanking starts.
fn hblank_start(bus: &mut MemoryBus) -> (r: Result<EventOutcome, MachineError>)
    requires
        old(bus).wf(),
    ensures
        final(bus).wf(),
        spec_handle_event(*old(bus), *final(bus), Event::HBlankStart, false, r),
{
    if bus.timers.hblanks == u32::MAX {
        return Err(MachineError::HBlanks);
    }
    bus.gpu.enter_hsync();
    let cycle = bus.scheduler.cycle;
    bus.timers.enter_hsync(cycle);
    Ok(EventOutcome::Nothing)
}

/// Horizontal blanking ends: counter 0 restarts and its next interrupt is
/// scheduled.
fn hblank_end(bus: &mut MemoryBus) -> (r: Result<EventOutcome, MachineError>)
    requires
        old(bus).wf(),
    ensures
        final(bus).wf(),
        spec_handle_event(*old(bus), *final(bus), Event::HBlankEnd, false, r),
{
    if !(crate::arrayvec_specs::tasks32_len(&bus.scheduler.tasks) < 32 && bus.scheduler.cycle < crate::scheduler::CYCLE_LIMIT) {
        return Err(MachineError::SchedulerFull);
    }
    bus.gpu.exit_hsync();
    let cycle = bus.scheduler.cycle;
    let ok = bus.timers.exit_hsync(cycle, &mut bus.scheduler);
    proof {
        let o = *old(bus);
        assert forall|i: int| 0 <= i < 3 implies #[trigger] bus.timers.timers[i].last_read <= bus.scheduler.cycle by {
            assert(o.timers.timers[i].last_read <= o.scheduler.cycle);
        }
    }
    if ok {
        Ok(EventOutcome::Nothing)
    } else {
        Err(MachineError::Timer)
    }
}

} // verus!
