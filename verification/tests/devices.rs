use psx_core::gpu::Gpu;
use psx_core::mdec::{level_shift_4bpp, level_shift_8bpp, signed10bit, Mdec, MdecError, ZAG_ZIG, ZIG_ZAG};
use psx_core::renderer_msg::RendererMsg;
use psx_core::scheduler::{Event, Scheduler};
use psx_core::sio::{Memcard, Sio, MEMCARD_BYTES};
use psx_core::spu::Spu;
use psx_core::spu_dsp::{apply_volume, clamped_i16, decode_adpcm_block, signed4bit};

#[test]
fn scheduler_gives_events_in_due_order() {
    let mut s = Scheduler::new();
    s.schedule(Event::VBlankStart, 100, None);
    s.schedule(Event::HBlankStart, 50, Some(10));
    s.advance(60);
    assert!(matches!(s.get_next_event(), Some(Event::HBlankStart)));
    assert!(s.get_next_event().is_none());
    s.advance(10);
    assert!(matches!(s.get_next_event(), Some(Event::HBlankStart)));
    s.advance(30);
    assert!(matches!(s.get_next_event(), Some(Event::HBlankStart)));
    assert!(matches!(s.get_next_event(), Some(Event::VBlankStart)));
    assert!(s.get_next_event().is_none());
}

#[test]
fn scheduler_unschedule_drops_the_event() {
    let mut s = Scheduler::new();
    s.schedule(Event::SpuTick, 5, None);
    s.schedule(Event::DsrOff, 6, None);
    s.unschedule(&Event::SpuTick);
    s.advance(10);
    assert!(matches!(s.get_next_event(), Some(Event::DsrOff)));
    assert!(s.get_next_event().is_none());
}

#[test]
fn scheduling_again_replaces_the_earlier_schedule() {
    let mut s = Scheduler::new();
    s.schedule(Event::SerialSend, 5, None);
    s.schedule(Event::SerialSend, 20, None);
    s.advance(10);
    assert!(s.get_next_event().is_none());
    s.advance(10);
    assert!(matches!(s.get_next_event(), Some(Event::SerialSend)));
}

#[test]
fn mdec_signed10bit_and_level_shift() {
    assert_eq!(signed10bit(0x3ff), -1);
    assert_eq!(signed10bit(0x200), -512);
    assert_eq!(signed10bit(0x1ff), 511);
    assert_eq!(signed10bit(0xfc05), 5);
    let mut block = [0i16; 64];
    block[0] = 200;
    block[1] = -200;
    block[2] = 0x1ff;
    let p = level_shift_8bpp(block);
    assert_eq!(p[0], 255);
    assert_eq!(p[1], 0);
    assert_eq!(p[2], 127);
    assert_eq!(p[3], 128);
    let q = level_shift_4bpp(block);
    assert_eq!(q[0], (255 >> 4) | (0 & 0xf0));
    assert_eq!(q[1], (127 >> 4) | (128 & 0xf0));
    assert_eq!(ZAG_ZIG[2], 8);
    for i in 0..64 {
        assert_eq!(ZAG_ZIG[ZIG_ZAG[i]], i);
    }
}

#[test]
fn mdec_status_and_control() {
    let mut m = Mdec::new();
    assert_eq!(m.get_status(), 0x8004_ffff);
    m.set_control(0x6000_0000);
    assert_eq!(m.get_status(), 0x9804_ffff);
    m.set_control(0x8000_0000);
    assert_eq!(m.get_status(), 0x8004_ffff);
    assert_eq!(m.load::<u16>(4).err(), Some(MdecError::Width));
    assert_eq!(m.load::<u32>(8).err(), Some(MdecError::Register));
    assert_eq!(m.load::<u32>(0).ok(), Some(0xfe00_fe00));
}

#[test]
fn mdec_quant_table_command() {
    let mut m = Mdec::new();
    assert!(m.store::<u32>(0, 0x4000_0001).is_ok());
    assert_eq!(m.get_status() & 0x2000_0000, 0x2000_0000);
    assert_eq!(m.get_status() & 0xffff, 31);
    for i in 0..32u32 {
        assert!(m.store::<u32>(0, 0x0403_0201 + i).is_ok());
    }
    assert_eq!(m.get_status() & 0x2000_0000, 0);
    assert_eq!(&m.luminance_table[0..4], &[1, 2, 3, 4]);
    assert_eq!(&m.luminance_table[4..8], &[2, 2, 3, 4]);
    assert_eq!(&m.chrominance_table[0..4], &[0x11, 2, 3, 4]);
}

#[test]
fn mdec_decodes_an_8bit_block() {
    let mut m = Mdec::new();
    // scale table: the first eight entries 7FF8h, the rest 0
    assert!(m.store::<u32>(0, 0x6000_0000).is_ok());
    for i in 0..32 {
        let w = if i < 4 { 0x7ff8_7ff8u32 } else { 0 };
        assert!(m.store::<u32>(0, w).is_ok());
    }
    assert_eq!(m.scale_table[0], 0x7ff8);
    assert_eq!(m.scale_table[8], 0);
    // decode, 8 bits: one word holding a DC of 1FFh (no quantization) and padding
    assert!(m.store::<u32>(0, 0x2800_0001).is_ok());
    let out = m.store::<u32>(0, 0xfe00_01ff).ok().unwrap();
    assert!(out.is_empty());
    assert_eq!(m.output_fifo.len(), 16);
    for _ in 0..16 {
        assert_eq!(m.load::<u32>(0).ok(), Some(0xffff_ffff));
    }
    assert_eq!(m.get_status() & 0x8000_0000, 0x8000_0000);
}

#[test]
fn mdec_colour_macroblocks_are_handed_out() {
    let mut m = Mdec::new();
    // decode, 15 bits, two words: a DC word then padding
    assert!(m.store::<u32>(0, 0x3800_0001).is_ok());
    let out = m.store::<u32>(0, 0xfe00_0001).ok().unwrap();
    assert_eq!(out.len(), 1);
    assert_eq!(m.output_fifo.len(), 0);
    m.push_output_words(&[1, 2, 3]);
    assert_eq!(m.load::<u32>(0).ok(), Some(1));
}

#[test]
fn spu_arithmetic() {
    assert_eq!(clamped_i16(40000), 32767);
    assert_eq!(clamped_i16(-40000), -32768);
    assert_eq!(clamped_i16(123), 123);
    assert_eq!(apply_volume(0x4000, 0x4000), 0x2000);
    assert_eq!(apply_volume(-0x4000, 0x4000), -0x2000);
    assert_eq!(signed4bit(0xf), -1);
    assert_eq!(signed4bit(0x7), 7);
    assert_eq!(signed4bit(0x18), -8);
}

#[test]
fn spu_adpcm_block_decodes() {
    let mut block = [0u8; 16];
    block[0] = 0x00; // shift 12, filter 0
    block[2] = 0x21; // samples 1 and 2
    block[3] = 0x0f; // sample -1, then 0
    let mut out = [0i16; 28];
    let mut old = 0i16;
    let mut older = 0i16;
    decode_adpcm_block(&block, &mut out, &mut old, &mut older);
    assert_eq!(out[0], 4096);
    assert_eq!(out[1], 8192);
    assert_eq!(out[2], -4096);
    assert_eq!(out[3], 0);
    assert_eq!(old, 0);
    assert_eq!(older, 0);
}

#[test]
fn spu_voice_register_reads_back() {
    let mut spu = Spu::new();
    assert_eq!(spu.store::<u16>(0x1f80_1c04, 0x1000), Ok(()));
    assert_eq!(spu.load::<u16>(0x1f80_1c04), Ok(0x1000));
    assert_eq!(spu.store::<u16>(0x1f80_1c00, 0x1234), Ok(()));
    assert_eq!(spu.load::<u16>(0x1f80_1c00), Ok(0x2468));
}

#[test]
fn gpu_fill_rect_goes_to_the_renderer() {
    let mut gpu = Gpu::new();
    gpu.gp0(0x0200_00ff);
    gpu.gp0(0x0010_0020);
    gpu.gp0(0x0008_0004);
    assert_eq!(gpu.outbox.len(), 1);
    match &gpu.outbox[0] {
        RendererMsg::FillRect { v, side, c, .. } => {
            assert_eq!((v.x, v.y), (0x20, 0x10));
            assert_eq!((side.x, side.y), (4, 8));
            assert_eq!((c.r, c.g, c.b), (0xff, 0, 0));
        },
        _ => panic!("a fill"),
    }
}

fn fresh_sio() -> Sio {
    let m1 = Memcard::from_data(vec![0u8; MEMCARD_BYTES]).unwrap();
    let m2 = Memcard::from_data(vec![0u8; MEMCARD_BYTES]).unwrap();
    Sio::new(m1, m2)
}

#[test]
fn sio_polls_a_digital_controller() {
    let mut sio = fresh_sio();
    let mut sched = Scheduler::new();
    // DTR and TX enable, port 1.
    assert!(sio.store::<u16>(0xa, 0x0003, &mut sched));
    assert!(sio.store::<u8>(0, 0x01, &mut sched));
    assert_eq!(sio.load::<u8>(0), 0xff);
    assert_eq!(sio.load::<u32>(4) & 0x80, 0x80);
    assert!(sio.store::<u8>(0, 0x42, &mut sched));
    assert_eq!(sio.load::<u8>(0), 0x41);
    assert!(sio.store::<u8>(0, 0x00, &mut sched));
    assert_eq!(sio.load::<u8>(0), 0x5a);
}

#[test]
fn sio_unknown_device_answers_ff_without_ack() {
    let mut sio = fresh_sio();
    let mut sched = Scheduler::new();
    assert!(sio.store::<u16>(0xa, 0x0003, &mut sched));
    assert!(sio.store::<u8>(0, 0x55, &mut sched));
    assert_eq!(sio.load::<u8>(0), 0xff);
    assert_eq!(sio.load::<u32>(4) & 0x80, 0);
}

#[test]
fn sio_control_reset_restores_registers() {
    let mut sio = fresh_sio();
    let mut sched = Scheduler::new();
    assert!(sio.store::<u16>(0x8, 0x004d, &mut sched));
    assert!(sio.store::<u16>(0xa, 0x0043, &mut sched));
    assert_eq!(sio.load::<u32>(4), 0x22005);
    assert_eq!(sio.load::<u16>(0xa), 0);
}
