use psx_core::cdrom_controller::CDRom;
use psx_core::cpu::Cpu;
use psx_core::dma::Dma;
use psx_core::gpu::Gpu;
use psx_core::irq::InterruptController;
use psx_core::memory_bus::MemoryBus;
use psx_core::ram::{Bios, Ram, BIOS_BYTES};
use psx_core::scheduler::Scheduler;
use psx_core::scratchpad::Scratchpad;
use psx_core::sio::{Memcard, Sio, MEMCARD_BYTES};
use psx_core::spu::Spu;
use psx_core::timers::Timers;

fn cpu_running(program: &[u32]) -> Cpu {
    let mut data = vec![0u8; BIOS_BYTES];
    for (i, w) in program.iter().enumerate() {
        data[4 * i..4 * i + 4].copy_from_slice(&w.to_le_bytes());
    }
    let bios = Bios::from_data(data).unwrap();
    let m1 = Memcard::from_data(vec![0u8; MEMCARD_BYTES]).unwrap();
    let m2 = Memcard::from_data(vec![0u8; MEMCARD_BYTES]).unwrap();
    let bus = MemoryBus::new(
        bios,
        Ram::new(),
        Scratchpad::new(),
        Dma::new(),
        Gpu::new(),
        Spu::new(),
        InterruptController::new(),
        Scheduler::new(),
        Timers::new(),
        Sio::new(m1, m2),
        CDRom::new(None),
    );
    Cpu::new(bus)
}

#[test]
fn cpu_starts_at_the_bios_entry() {
    let cpu = cpu_running(&[]);
    assert_eq!(cpu.pc, 0xbfc0_0000);
    assert_eq!(cpu.regs[0], 0);
    assert_eq!(cpu.regs[1], 0xdead_beef);
}

#[test]
fn alu_store_and_load_program() {
    let program = [
        0x3c01_1234, // lui $1, 0x1234
        0x3421_5678, // ori $1, $1, 0x5678
        0x2402_0005, // addiu $2, $0, 5
        0xac01_0100, // sw $1, 0x100($0)
        0x8c03_0100, // lw $3, 0x100($0)
        0x0000_0000, // nop
        0x0042_2021, // addu $4, $2, $2
        0x0000_0000, // nop
    ];
    let mut cpu = cpu_running(&program);
    for _ in 0..program.len() {
        assert!(cpu.run_next_instruction().is_ok());
    }
    assert_eq!(cpu.regs[1], 0x1234_5678);
    assert_eq!(cpu.regs[2], 5);
    assert_eq!(cpu.regs[3], 0x1234_5678);
    assert_eq!(cpu.regs[4], 10);
    assert_eq!(cpu.memory_bus.load::<u32>(0x100), Ok(0x1234_5678));
    assert_eq!(cpu.pc, 0xbfc0_0000 + 4 * program.len() as u32);
}

#[test]
fn pending_load_lands_before_the_next_instruction() {
    let program = [
        0x2401_0007, // addiu $1, $0, 7
        0xac01_0200, // sw $1, 0x200($0)
        0x8c02_0200, // lw $2, 0x200($0)
        0x0040_1821, // addu $3, $2, $0   (the load has landed)
        0x0040_2021, // addu $4, $2, $0
    ];
    let mut cpu = cpu_running(&program);
    for _ in 0..program.len() {
        assert!(cpu.run_next_instruction().is_ok());
    }
    assert_eq!(cpu.regs[3], 7);
    assert_eq!(cpu.regs[4], 7);
}

#[test]
fn signed_overflow_raises_an_exception() {
    let program = [
        0x3c05_7fff, // lui $5, 0x7fff
        0x34a5_ffff, // ori $5, $5, 0xffff
        0x20a6_0001, // addi $6, $5, 1
    ];
    let mut cpu = cpu_running(&program);
    for _ in 0..program.len() {
        assert!(cpu.run_next_instruction().is_ok());
    }
    assert_eq!(cpu.regs[6], 0xdead_beef);
    assert_eq!(cpu.cause & 0x7c, 0x0c << 2);
    assert_eq!(cpu.epc, 0xbfc0_0008);
    assert_eq!(cpu.pc, 0x8000_0080);
}

#[test]
fn branch_executes_its_delay_slot() {
    let program = [
        0x1000_0002, // beq $0, $0, +2
        0x2401_0001, // addiu $1, $0, 1   (delay slot)
        0x2402_0002, // addiu $2, $0, 2   (skipped)
        0x2403_0003, // addiu $3, $0, 3   (target)
    ];
    let mut cpu = cpu_running(&program);
    for _ in 0..3 {
        assert!(cpu.run_next_instruction().is_ok());
    }
    assert_eq!(cpu.regs[1], 1);
    assert_eq!(cpu.regs[2], 0xdead_beef);
    assert_eq!(cpu.regs[3], 3);
}
