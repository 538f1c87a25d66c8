use psx_core::colour::Colour;
use psx_core::renderer::Renderer;
use psx_core::sio::{Button, Gamepad};
use psx_core::spu::Spu;
use psx_core::spu_dsp::decode_adpcm_block;
use psx_core::spu_reverb::Reverb;
use psx_core::spu_voice::{AdsrEnvelope, Direction, Mode, SoundRam};

#[test]
fn pixel_bytes_survive_a_colour_round_trip() {
    for (msb, lsb) in [(0x83u8, 0x21u8), (0x00, 0x00), (0xff, 0xff), (0x7c, 0x1f)] {
        assert_eq!(Colour::from_bytes(msb, lsb).to_le_bytes(), [lsb, msb]);
    }
}

#[test]
fn vram_copy_reads_back_with_wrapping() {
    let mut r = Renderer::new();
    let data = vec![0x1111_2222u32, 0x3333_4444, 0x0000_5555];
    r.cpu_to_vram_copy((1020, 511), (5, 1), &data);
    assert_eq!(r.vram_to_cpu_copy((1020, 511), (5, 1)), data);
}

#[test]
fn spu_address_registers_read_back_what_was_written() {
    let mut spu = Spu::new();
    for addr in [0x1f80_1da4u32, 0x1f80_1dc0, 0x1f80_1dc2, 0x1f80_1dd4, 0x1f80_1dfa] {
        assert_eq!(spu.store::<u16>(addr, 0x0100), Ok(()));
        assert_eq!(spu.load::<u16>(addr), Ok(0x0100));
    }
    assert_eq!(spu.store::<u16>(0x1f80_1c0e, 0x0234), Ok(()));
    assert_eq!(spu.load::<u16>(0x1f80_1c0e), Ok(0x0234));
}

#[test]
fn noise_mode_register_reads_back() {
    let mut spu = Spu::new();
    spu.noise_mode_enable::<0>(0x1234);
    spu.noise_mode_enable::<1>(0xabcd);
    assert_eq!(spu.get_noise_mode_enabled::<0>(), 0x1234);
    assert_eq!(spu.get_noise_mode_enabled::<1>(), 0x00cd);
}

fn decode(header: u8) -> ([i16; 28], i16, i16) {
    let mut block = [0u8; 16];
    block[0] = header;
    block[2] = 0x71;
    block[3] = 0x9f;
    let mut out = [0i16; 28];
    let mut old = 100i16;
    let mut older = -50i16;
    decode_adpcm_block(&block, &mut out, &mut old, &mut older);
    (out, old, older)
}

#[test]
fn adpcm_shift_and_filter_clamp() {
    for s in [13u8, 14, 15] {
        assert_eq!(decode(0x20 | s), decode(0x29));
    }
    for f in [5u8, 6, 7] {
        assert_eq!(decode((f << 4) | 3), decode(0x43));
    }
    let mut block = [0u8; 16];
    block[2] = 0xf1;
    let mut out = [0i16; 28];
    let (mut old, mut older) = (0i16, 0i16);
    decode_adpcm_block(&block, &mut out, &mut old, &mut older);
    assert_eq!(out[0], 4096);
    assert_eq!(out[1], -4096);
    assert!(out[2..].iter().all(|&x| x == 0));
    assert_eq!((old, older), (0, 0));
}

#[test]
fn envelope_moves_in_its_direction() {
    let mut e = AdsrEnvelope::default();
    e.level = 0x100;
    e.update_envelope(Direction::Increasing, 0, 0, Mode::Linear);
    assert_eq!(e.level, 0x3900);
    e.update_envelope(Direction::Decreasing, 0, 0, Mode::Exponential);
    assert_eq!(e.level, 0x1c80);
    e.level = 0x7f00;
    e.update_envelope(Direction::Increasing, 0, 0, Mode::Linear);
    assert_eq!(e.level, 0x7fff);
}

#[test]
fn reverb_reads_back_a_clamped_write() {
    let mut r = Reverb::default();
    r.set_base_address(0x1000);
    let mut ram = SoundRam::new();
    r.write_sample(&mut ram, 0x10, 40000);
    assert_eq!(r.read_sample(&mut ram, 0x10), 32767);
    r.write_sample(&mut ram, 0x12, -1234);
    assert_eq!(r.read_sample(&mut ram, 0x12), -1234);
    assert_eq!(r.read_sample(&mut ram, 0x10), 32767);
}

#[test]
fn gamepad_buttons_press_and_release() {
    let mut pad = Gamepad::default();
    pad.set_button(Button::Cross, true);
    assert_eq!(pad.digital_switches, 0xbfff);
    pad.set_button(Button::Start, true);
    assert_eq!(pad.digital_switches, 0xbff7);
    pad.set_button(Button::Cross, false);
    assert_eq!(pad.digital_switches, 0xfff7);
}
