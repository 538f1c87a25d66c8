use psx_core::cdrom_controller::CDRom;
use psx_core::cpu::Cpu;
use psx_core::dirty_region::DirtyRegion;
use psx_core::dma::Dma;
use psx_core::exe::{load_exe, ExeError};
use psx_core::gpu::Gpu;
use psx_core::irq::InterruptController;
use psx_core::machine::{handle_event, EventOutcome, MachineError};
use psx_core::memory_bus::MemoryBus;
use psx_core::ram::{Bios, Ram, BIOS_BYTES};
use psx_core::renderer_msg::RendererMsg;
use psx_core::scheduler::{Event, Scheduler, TimerInterrupt};
use psx_core::scratchpad::Scratchpad;
use psx_core::sio::{Memcard, Sio, MEMCARD_BYTES};
use psx_core::spu::Spu;
use psx_core::timers::Timers;

fn bus() -> MemoryBus {
    let bios = Bios::from_data(vec![0u8; BIOS_BYTES]).unwrap();
    let m1 = Memcard::from_data(vec![0u8; MEMCARD_BYTES]).unwrap();
    let m2 = Memcard::from_data(vec![0u8; MEMCARD_BYTES]).unwrap();
    MemoryBus::new(
        bios,
        Ram::new(),
        Scratchpad::new(),
        Dma::new(),
        Gpu::new(),
        Spu::new(),
        InterruptController::new(),
        Scheduler::new(),
        Timers::new(),
        Sio::new(m1, m2),
        CDRom::new(None),
    )
}

fn put_word(d: &mut [u8], at: usize, w: u32) {
    d[at..at + 4].copy_from_slice(&w.to_le_bytes());
}

#[test]
fn vblank_start_raises_irq0_and_asks_for_the_frame() {
    let mut b = bus();
    assert_eq!(handle_event(&mut b, Event::VBlankStart, false), Ok(EventOutcome::FrameReady));
    assert_eq!(b.irqctl.status.0 & 1, 1);
    assert_eq!(b.gpu.outbox.len(), 1);
    assert!(matches!(b.gpu.outbox[0], RendererMsg::RenderFB { full_ram: false, .. }));
    assert!(b.timers.in_vsync);
    assert_eq!(handle_event(&mut b, Event::VBlankEnd, false), Ok(EventOutcome::FrameEnd));
    assert!(!b.timers.in_vsync);
}

#[test]
fn hblank_counts_lines() {
    let mut b = bus();
    assert_eq!(handle_event(&mut b, Event::HBlankStart, false), Ok(EventOutcome::Nothing));
    assert_eq!(b.timers.hblanks, 1);
    assert!(b.timers.in_hsync);
    assert_eq!(handle_event(&mut b, Event::HBlankEnd, false), Ok(EventOutcome::Nothing));
    assert!(!b.timers.in_hsync);
    b.timers.hblanks = u32::MAX;
    assert_eq!(handle_event(&mut b, Event::HBlankStart, false), Err(MachineError::HBlanks));
}

#[test]
fn bad_timer_event_is_refused() {
    let mut b = bus();
    let ev = Event::Timer(TimerInterrupt { which: 5, toggle: false });
    assert_eq!(handle_event(&mut b, ev, false), Err(MachineError::Timer));
}

#[test]
fn serial_events() {
    let mut b = bus();
    assert_eq!(handle_event(&mut b, Event::SerialSend, false), Ok(EventOutcome::Nothing));
    assert_eq!(b.irqctl.status.0 & 0x80, 0x80);
    assert_eq!(b.sio.status & 0x200, 0x200);
    b.sio.status |= 0x80;
    assert_eq!(handle_event(&mut b, Event::DsrOff, false), Ok(EventOutcome::Nothing));
    assert_eq!(b.sio.status & 0x80, 0);
}

#[test]
fn spu_tick_gives_a_silent_sample_when_disabled() {
    let mut b = bus();
    assert_eq!(handle_event(&mut b, Event::SpuTick, false), Ok(EventOutcome::AudioSample(0, 0)));
}

#[test]
fn exe_is_loaded_into_ram() {
    let mut d = vec![0u8; 0x808];
    put_word(&mut d, 0x10, 0x8001_0000);
    put_word(&mut d, 0x14, 0x1234);
    put_word(&mut d, 0x18, 0x8001_0000);
    put_word(&mut d, 0x1c, 8);
    put_word(&mut d, 0x30, 0x801f_fff0);
    put_word(&mut d, 0x800, 0xcafe_f00d);
    put_word(&mut d, 0x804, 0x0bad_beef);
    let mut cpu = Cpu::new(bus());
    assert_eq!(load_exe(&mut cpu, &d), Ok(()));
    assert_eq!(cpu.pc, 0x8001_0000);
    assert_eq!(cpu.next_pc, 0x8001_0004);
    assert_eq!(cpu.regs[28], 0x1234);
    assert_eq!(cpu.regs[29], 0x801f_fff0);
    assert_eq!(cpu.regs[30], 0x801f_fff0);
    assert_eq!(cpu.memory_bus.load::<u32>(0x0001_0000), Ok(0xcafe_f00d));
    assert_eq!(cpu.memory_bus.load::<u32>(0x0001_0004), Ok(0x0bad_beef));
}

#[test]
fn exe_errors() {
    let mut cpu = Cpu::new(bus());
    assert_eq!(load_exe(&mut cpu, &vec![0u8; 0x100]), Err(ExeError::Truncated));
    let mut d = vec![0u8; 0x820];
    put_word(&mut d, 0x1c, 0x40);
    assert_eq!(load_exe(&mut cpu, &d), Err(ExeError::Truncated));
    put_word(&mut d, 0x18, 0x001f_fff0);
    put_word(&mut d, 0x1c, 0x20);
    assert_eq!(load_exe(&mut cpu, &d), Err(ExeError::OutOfRam));
    assert_eq!(cpu.pc, 0xbfc0_0000);
}

#[test]
fn dirty_region_merge_covers_both() {
    let mut r = DirtyRegion::empty();
    r.merge(10, 10, 20, 20);
    r.merge(5, 15, 12, 30);
    assert!(!r.empty);
    assert_eq!((r.ax, r.ay, r.bx, r.by), (5, 10, 20, 30));
    assert!(r.intersects(0, 0, 6, 11));
    assert!(!r.intersects(21, 0, 30, 5));
    r.clear();
    assert!(!r.intersects(0, 0, 100, 100));
}
