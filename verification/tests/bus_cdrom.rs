use psx_core::cdrom::ResponseType;
use psx_core::cdrom_controller::{
    from_bcd, to_bcd, CDRom, CdRomError, Speed, Status, AVG_1ST_RESP_GENERIC,
};
use psx_core::dma::Dma;
use psx_core::gpu::Gpu;
use psx_core::irq::InterruptController;
use psx_core::memory_bus::{mask_region, BusError, MemoryBus};
use psx_core::ram::{Bios, Ram, BIOS_BYTES};
use psx_core::scheduler::{Event, Scheduler};
use psx_core::scratchpad::Scratchpad;
use psx_core::sio::{Memcard, Sio, MEMCARD_BYTES};
use psx_core::spu::Spu;
use psx_core::timers::Timers;

fn bus_with_bios(bios_data: Vec<u8>) -> MemoryBus {
    let bios = Bios::from_data(bios_data).unwrap();
    let m1 = Memcard::from_data(vec![0u8; MEMCARD_BYTES]).unwrap();
    let m2 = Memcard::from_data(vec![0u8; MEMCARD_BYTES]).unwrap();
    MemoryBus::new(
        bios,
        Ram::new(),
        Scratchpad::new(),
        Dma::new(),
        Gpu::new(),
        Spu::new(),
        InterruptController::new(),
        Scheduler::new(),
        Timers::new(),
        Sio::new(m1, m2),
        CDRom::new(None),
    )
}

fn bus() -> MemoryBus {
    bus_with_bios(vec![0u8; BIOS_BYTES])
}

#[test]
fn ram_word_reads_back_little_endian() {
    let mut b = bus();
    assert_eq!(b.store::<u32>(0x100, 0xdead_beef), Ok(()));
    assert_eq!(b.load::<u32>(0x100), Ok(0xdead_beef));
    assert_eq!(b.load::<u8>(0x101), Ok(0xbe));
    assert_eq!(b.load::<u16>(0x102), Ok(0xdead));
}

#[test]
fn kseg1_mirrors_ram() {
    let mut b = bus();
    assert_eq!(b.store::<u16>(0xa000_0200, 0x1234), Ok(()));
    assert_eq!(b.load::<u16>(0x0000_0200), Ok(0x1234));
    assert_eq!(b.load::<u16>(0x8000_0200), Ok(0x1234));
}

#[test]
fn mask_region_strips_segments() {
    assert_eq!(mask_region(0x8000_1234), 0x0000_1234);
    assert_eq!(mask_region(0xbfc0_0000), 0x1fc0_0000);
    assert_eq!(mask_region(0xfffe_0130), 0xfffe_0130);
    assert_eq!(mask_region(0x0000_0010), 0x0000_0010);
}

#[test]
fn unaligned_and_unmapped_accesses_fail() {
    let mut b = bus();
    assert_eq!(b.load::<u32>(0x102), Err(BusError::Unaligned));
    assert_eq!(b.store::<u16>(0x101, 1), Err(BusError::Unaligned));
    assert_eq!(b.load::<u32>(0x1f90_0000), Err(BusError::Unhandled));
}

#[test]
fn bios_is_read_from_its_image() {
    let mut data = vec![0u8; BIOS_BYTES];
    data[0] = 1;
    data[1] = 2;
    data[2] = 3;
    data[3] = 4;
    let mut b = bus_with_bios(data);
    assert_eq!(b.load::<u32>(0xbfc0_0000), Ok(0x0403_0201));
    assert!(Bios::from_data(vec![0u8; 16]).is_none());
}

#[test]
fn scratchpad_reads_back() {
    let mut b = bus();
    assert_eq!(b.store::<u8>(0x1f80_0010, 0x5a), Ok(()));
    assert_eq!(b.load::<u8>(0x1f80_0010), Ok(0x5a));
}

#[test]
fn bcd_digits() {
    assert_eq!(to_bcd(42), Some(0x42));
    assert_eq!(to_bcd(99), Some(0x99));
    assert_eq!(to_bcd(100), None);
    assert_eq!(from_bcd(0x42), Some(42));
    assert_eq!(from_bcd(0x1a), None);
    assert_eq!(from_bcd(to_bcd(7).unwrap()), Some(7));
}

#[test]
fn status_with_error_sets_bit_zero() {
    assert_eq!(Status(0x02).with_error(), 0x03);
    assert_eq!(Speed::from_mode(0x80), Speed::Double);
    assert_eq!(Speed::Double.transform(100), 50);
    assert_eq!(Speed::Normal.transform(100), 100);
}

#[test]
fn cdrom_test_command_answers_version() {
    let mut b = bus();
    // interrupt enable, bank 1
    assert_eq!(b.store::<u8>(0x1f80_1800, 1), Ok(()));
    assert_eq!(b.store::<u8>(0x1f80_1802, 0x1f), Ok(()));
    assert_eq!(b.load::<u8>(0x1f80_1803), Ok(0));
    // back to bank 0: parameter 20h, command Test (19h)
    assert_eq!(b.store::<u8>(0x1f80_1800, 0), Ok(()));
    assert_eq!(b.load::<u8>(0x1f80_1800), Ok(0x18));
    assert_eq!(b.load::<u8>(0x1f80_1803), Ok(0xff));
    assert_eq!(b.store::<u8>(0x1f80_1802, 0x20), Ok(()));
    assert_eq!(b.store::<u8>(0x1f80_1801, 0x19), Ok(()));
    assert_eq!(b.load::<u8>(0x1f80_1800), Ok(0x38));
    b.scheduler.advance(AVG_1ST_RESP_GENERIC);
    let ev = b.scheduler.get_next_event();
    let response = match ev {
        Some(Event::CDRomResultIrq(r)) => r,
        _ => panic!("the response is due"),
    };
    assert!(matches!(response, ResponseType::INT3(_)));
    assert_eq!(CDRom::process_response(&mut b, response), Ok(()));
    // IRQ2 raised, INT3 flagged in bank 1
    assert_eq!(b.irqctl.status.0 & 0x4, 0x4);
    assert_eq!(b.store::<u8>(0x1f80_1800, 1), Ok(()));
    assert_eq!(b.load::<u8>(0x1f80_1803), Ok(3));
    assert_eq!(b.load::<u8>(0x1f80_1801), Ok(0x95));
    assert_eq!(b.load::<u8>(0x1f80_1801), Ok(0x05));
    assert_eq!(b.load::<u8>(0x1f80_1801), Ok(0x16));
    assert_eq!(b.load::<u8>(0x1f80_1801), Ok(0xc1));
    assert_eq!(b.load::<u8>(0x1f80_1801), Err(BusError::CdRom(CdRomError::EmptyResults)));
    // acknowledging clears the flags
    assert_eq!(b.store::<u8>(0x1f80_1803, 0x07), Ok(()));
    assert_eq!(b.load::<u8>(0x1f80_1803), Ok(0));
}

#[test]
fn cdrom_refuses_bad_requests() {
    let mut b = bus();
    assert_eq!(b.store::<u8>(0x1f80_1801, 0x99), Err(BusError::CdRom(CdRomError::UnknownCommand)));
    assert_eq!(b.store::<u8>(0x1f80_1801, 0x11), Err(BusError::CdRom(CdRomError::NoDisk)));
    assert_eq!(b.store::<u16>(0x1f80_1800, 0), Err(BusError::CdRom(CdRomError::Register)));
    assert_eq!(b.load::<u16>(0x1f80_1800), Err(BusError::CdRom(CdRomError::Register)));
    for _ in 0..1024 {
        assert_eq!(b.store::<u8>(0x1f80_1802, 1), Ok(()));
    }
    assert_eq!(b.store::<u8>(0x1f80_1802, 1), Err(BusError::CdRom(CdRomError::FullParameters)));
}

#[test]
fn cdrom_nop_with_parameters_is_an_error_response() {
    let mut c = CDRom::new(None);
    assert_eq!(c.push_parameter(5), Ok(()));
    let r = c.cmd_nop().ok().unwrap();
    assert_eq!(r.responses.len(), 1);
    match &r.responses[0].0 {
        ResponseType::INT5(bytes) => assert_eq!(*bytes, [0x01, 0x20]),
        _ => panic!("an error response"),
    }
}

#[test]
fn cdrom_data_buffer_reads_zero_past_its_end() {
    let mut c = CDRom::new(None);
    let mut sector = vec![0u8; 0x930];
    sector[0x18] = 0xab;
    sector[0x19] = 0xcd;
    assert_eq!(c.process_sector(sector), Ok(false));
    assert_eq!(c.get_hsts() & 0x40, 0x40);
    assert_eq!(c.data_buffer.len(), 0x800);
    assert_eq!(c.load::<u16>(2), Ok(0xcdab));
}

#[test]
fn cdrom_audio_samples_are_little_endian() {
    let mut c = CDRom::new(None);
    c.push_to_audio_buffer(&[0x34, 0x12, 0xff, 0xff, 0x01]);
    assert_eq!(c.get_audio_sample(), 0x1234);
    assert_eq!(c.get_audio_sample(), -1);
    assert_eq!(c.get_audio_sample(), 0);
}

#[test]
fn dma_ordering_table_clear_links_entries_downwards() {
    let mut b = bus();
    let below = b.load::<u32>(0x1e0).unwrap();
    assert_eq!(b.store::<u32>(0x1f80_10e0, 0x1f0), Ok(()));
    assert_eq!(b.store::<u32>(0x1f80_10e4, 4), Ok(()));
    assert_eq!(b.store::<u32>(0x1f80_10e8, 0x1100_0002), Ok(()));
    assert_eq!(b.load::<u32>(0x1f0), Ok(0x1ec));
    assert_eq!(b.load::<u32>(0x1ec), Ok(0x1e8));
    assert_eq!(b.load::<u32>(0x1e8), Ok(0x1e4));
    assert_eq!(b.load::<u32>(0x1e4), Ok(0x00ff_ffff));
    assert_eq!(b.load::<u32>(0x1e0), Ok(below));
    let control = b.load::<u32>(0x1f80_10e8).unwrap();
    assert_eq!(control & 0x1100_0000, 0);
}

#[test]
fn dma_linked_list_feeds_gpu_commands() {
    let mut b = bus();
    // One packet of one word, then the end marker.
    assert_eq!(b.store::<u32>(0x100, 0x01ff_ffff), Ok(()));
    assert_eq!(b.store::<u32>(0x104, 0xe100_0005), Ok(()));
    let before = b.load::<u32>(0x1f80_1814).unwrap();
    assert_eq!(before & 0xf, 0);
    assert_eq!(b.store::<u32>(0x1f80_10a0, 0x100), Ok(()));
    assert_eq!(b.store::<u32>(0x1f80_10a8, 0x0100_0401), Ok(()));
    let after = b.load::<u32>(0x1f80_1814).unwrap();
    assert_eq!(after & 0xf, 5);
    let control = b.load::<u32>(0x1f80_10a8).unwrap();
    assert_eq!(control & 0x0100_0000, 0);
}
