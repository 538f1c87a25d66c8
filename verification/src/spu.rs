use vstd::prelude::*;
use crate::addressable::Addressable;
use crate::irq::with_bit;
use crate::memory_bus::MemoryBus;
use crate::spu_dsp::{apply_volume, spec_apply_volume, spec_clamp, spec_noise_clock, spec_write_half, write_half, NoiseGenerator};
use crate::spu_reverb::{spec_hits, spec_tick_mem, spec_tick_reverb, spec_step_hits, spec_write16, Reverb};
use crate::cdrom_controller::CDRom;
use crate::spu_voice::{spec_key_on_voice, spec_voice_clock, AdsrEnvelope, AdsrPhase, SoundRam, SpuError, Voice, SOUND_RAM_BYTES};

verus! {

/// How data written through the transfer FIFO lands in sound RAM.
#[derive(Clone, Copy, PartialEq, Eq, Structural, Debug)]
pub enum DataTransferType {
    Fill,
    Normal,
    Rep2,
    Rep4,
    Rep8,
}

/// The sound processing unit: global registers, the 24 voices, the reverb,
/// the noise generator and sound RAM.
pub struct Spu {
    pub main_volume_left: i16,
    pub main_volume_right: i16,
    pub voice_key_on: u32,
    pub voice_key_off: u32,
    /// SPUCNT.
    pub control: u16,
    pub cd_audio_input_volume_left: i16,
    pub cd_audio_input_volume_right: i16,
    pub external_audio_input_volume_left: i16,
    pub external_audio_input_volume_right: i16,
    pub data_transfer_type: DataTransferType,
    /// Transfer address register, in units of 8 bytes.
    pub data_transfer_address: u16,
    /// Byte address of the next transfer write.
    pub current_address: usize,
    pub memory: SoundRam,
    pub voices: [Voice; 24],
    pub reverb: Reverb,
    pub noise: NoiseGenerator,
    pub last_irq_line: bool,
    pub capture_buffer_idx: usize,
}

/// Bit `n` of SPUCNT.
pub open spec fn spec_control_bit(c: u16, n: u16) -> bool {
    (c >> n) & 1 == 1
}

/// The 32-bit value a load from SPU register `address` gives before it is
/// cut to the access width, `None` for an address the SPU does not answer.
/// Registers that hold sound RAM addresses read back in 8-byte units, as
/// they are written.
pub open spec fn spec_spu_read(o: Spu, address: u32) -> Option<u32> {
    if 0x1f80_1c00 <= address <= 0x1f80_1d7f {
        let a = address - 0x1f80_1c00;
        let v = o.voices[a / 0x10];
        let r = a % 0x10;
        if r == 0 {
            Some(v.volume_left as u32)
        } else if r == 2 {
            Some(v.volume_right as u32)
        } else if r == 4 {
            Some(v.adpcm_sample_rate as u32)
        } else if r == 6 {
            Some(v.adpcm_start_address as u32)
        } else if r == 8 {
            Some(v.envelope.reg)
        } else if r == 0xa {
            Some(v.envelope.reg >> 16u32)
        } else if r == 0xc {
            Some(v.envelope.level as u32)
        } else if r == 0xe {
            Some((v.repeat_address / 8) as u32)
        } else {
            None
        }
    } else if 0x1f80_1e00 <= address <= 0x1f80_1e5f {
        let a = address - 0x1f80_1e00;
        let v = o.voices[a / 4];
        let r = a % 4;
        if r == 0 {
            Some(v.volume_left as u32)
        } else if r == 2 {
            Some(v.volume_right as u32)
        } else {
            None
        }
    } else if address == 0x1f801d80 {
        Some(o.main_volume_left as u32)
    } else if address == 0x1f801d82 {
        Some(o.main_volume_right as u32)
    } else if address == 0x1f801d84 {
        Some(o.reverb.output_volume_left as u32)
    } else if address == 0x1f801d86 {
        Some(o.reverb.output_volume_right as u32)
    } else if address == 0x1f801d90 {
        Some(spec_voice_bits(o.voices@, 0, 1, 15, |v: Voice| v.modulation_enabled) as u32)
    } else if address == 0x1f801d92 {
        Some(spec_voice_bits(o.voices@, 16, 0, 8, |v: Voice| v.modulation_enabled) as u32)
    } else if address == 0x1f801d94 {
        Some(spec_voice_bits(o.voices@, 0, 0, 16, |v: Voice| v.noise_mode) as u32)
    } else if address == 0x1f801d96 {
        Some(spec_voice_bits(o.voices@, 16, 0, 8, |v: Voice| v.noise_mode) as u32)
    } else if address == 0x1f801d98 {
        Some(spec_voice_bits(o.voices@, 0, 0, 16, |v: Voice| v.reverb_mode) as u32)
    } else if address == 0x1f801d9a {
        Some(spec_voice_bits(o.voices@, 16, 0, 8, |v: Voice| v.reverb_mode) as u32)
    } else if address == 0x1f801da4 {
        Some((o.memory.irq_address / 8) as u32)
    } else if address == 0x1f801db0 {
        Some(o.cd_audio_input_volume_left as u32)
    } else if address == 0x1f801db2 {
        Some(o.cd_audio_input_volume_right as u32)
    } else if address == 0x1f801db4 {
        Some(o.external_audio_input_volume_left as u32)
    } else if address == 0x1f801db6 {
        Some(o.external_audio_input_volume_right as u32)
    } else if address == 0x1f801dc0 {
        Some((o.reverb.d_apf1 / 8) as u32)
    } else if address == 0x1f801dc2 {
        Some((o.reverb.d_apf2 / 8) as u32)
    } else if address == 0x1f801dc4 {
        Some(o.reverb.v_iir as u32)
    } else if address == 0x1f801dc6 {
        Some(o.reverb.v_comb1 as u32)
    } else if address == 0x1f801dc8 {
        Some(o.reverb.v_comb2 as u32)
    } else if address == 0x1f801dca {
        Some(o.reverb.v_comb3 as u32)
    } else if address == 0x1f801dcc {
        Some(o.reverb.v_comb4 as u32)
    } else if address == 0x1f801dce {
        Some(o.reverb.v_wall as u32)
    } else if address == 0x1f801dd0 {
        Some(o.reverb.v_apf1 as u32)
    } else if address == 0x1f801dd2 {
        Some(o.reverb.v_apf2 as u32)
    } else if address == 0x1f801dd4 {
        Some((o.reverb.ml_same / 8) as u32)
    } else if address == 0x1f801dd6 {
        Some((o.reverb.mr_same / 8) as u32)
    } else if address == 0x1f801dd8 {
        Some((o.reverb.ml_comb1 / 8) as u32)
    } else if address == 0x1f801dda {
        Some((o.reverb.mr_comb1 / 8) as u32)
    } else if address == 0x1f801ddc {
        Some((o.reverb.ml_comb2 / 8) as u32)
    } else if address == 0x1f801dde {
        Some((o.reverb.mr_comb2 / 8) as u32)
    } else if address == 0x1f801de0 {
        Some((o.reverb.dl_same / 8) as u32)
    } else if address == 0x1f801de2 {
        Some((o.reverb.dr_same / 8) as u32)
    } else if address == 0x1f801de4 {
        Some((o.reverb.ml_diff / 8) as u32)
    } else if address == 0x1f801de6 {
        Some((o.reverb.mr_diff / 8) as u32)
    } else if address == 0x1f801de8 {
        Some((o.reverb.ml_comb3 / 8) as u32)
    } else if address == 0x1f801dea {
        Some((o.reverb.mr_comb3 / 8) as u32)
    } else if address == 0x1f801dec {
        Some((o.reverb.ml_comb4 / 8) as u32)
    } else if address == 0x1f801dee {
        Some((o.reverb.mr_comb4 / 8) as u32)
    } else if address == 0x1f801df0 {
        Some((o.reverb.dl_diff / 8) as u32)
    } else if address == 0x1f801df2 {
        Some((o.reverb.dr_diff / 8) as u32)
    } else if address == 0x1f801df4 {
        Some((o.reverb.ml_apf1 / 8) as u32)
    } else if address == 0x1f801df6 {
        Some((o.reverb.mr_apf1 / 8) as u32)
    } else if address == 0x1f801df8 {
        Some((o.reverb.ml_apf2 / 8) as u32)
    } else if address == 0x1f801dfa {
        Some((o.reverb.mr_apf2 / 8) as u32)
    } else if address == 0x1f801dfc {
        Some(o.reverb.input_volume_left as u32)
    } else if address == 0x1f801dfe {
        Some(o.reverb.input_volume_right as u32)
    } else if address == 0x1f801d88 {
        Some(o.voice_key_on)
    } else if address == 0x1f801d8a {
        Some(o.voice_key_on >> 16u32)
    } else if address == 0x1f801d8c {
        Some(o.voice_key_off)
    } else if address == 0x1f801d8e {
        Some(o.voice_key_off >> 16u32)
    } else if address == 0x1f801da6 {
        Some(o.data_transfer_address as u32)
    } else if address == 0x1f801d9c {
        Some(spec_voice_bits(o.voices@, 0, 0, 16, |v: Voice| v.reached_loop_end) as u32)
    } else if address == 0x1f801d9e {
        Some(spec_voice_bits(o.voices@, 16, 0, 8, |v: Voice| v.reached_loop_end) as u32)
    } else if address == 0x1f801daa {
        Some(o.control as u32)
    } else if address == 0x1f801dae {
        Some(((if o.memory.irq { 0x40u32 } else { 0u32 }) | (if o.capture_buffer_idx > 0x200 { 0x800u32 } else { 0u32 })))
    } else if address == 0x1f801dac {
        Some(spec_transfer_code(o.data_transfer_type) as u32)
    } else if address == 0x1f801db8 {
        Some(o.main_volume_left as u32)
    } else if address == 0x1f801dba {
        Some(o.main_volume_right as u32)
    } else {
        None
    }
}

/// What a store of `val` to SPU register `address` does; an address the
/// SPU does not answer is an error and changes nothing.
pub open spec fn spec_spu_store(o: Spu, n: Spu, address: u32, val: u16, r: Result<(), SpuError>) -> bool {
    if spec_store_reverb(o, address, val) is Some {
        r is Ok && n == spec_store_reverb(o, address, val)->0
    } else if 0x1f80_1c00 <= address <= 0x1f80_1d7f {
        let a = address - 0x1f80_1c00;
        let i = a / 0x10;
        match spec_voice_write(o.voices[i as int], (a % 0x10) as u32, val) {
            Some(x) => r is Ok && n == (Spu { voices: n.voices, ..o }) && n.voices@ == o.voices@.update(i as int, x),
            None => r == Err::<(), SpuError>(SpuError::Register) && n == o,
        }
    } else if address == 0x1f801d80 {
        r is Ok && n == (Spu { main_volume_left: (val << 1u16) as i16, ..o })
    } else if address == 0x1f801d82 {
        r is Ok && n == (Spu { main_volume_right: (val << 1u16) as i16, ..o })
    } else if address == 0x1f801db0 {
        r is Ok && n == (Spu { cd_audio_input_volume_left: val as i16, ..o })
    } else if address == 0x1f801db2 {
        r is Ok && n == (Spu { cd_audio_input_volume_right: val as i16, ..o })
    } else if address == 0x1f801db4 {
        r is Ok && n == (Spu { external_audio_input_volume_left: val as i16, ..o })
    } else if address == 0x1f801db6 {
        r is Ok && n == (Spu { external_audio_input_volume_right: val as i16, ..o })
    } else if address == 0x1f80_1d88 {
        spec_key_on_post(o, n, val, 0, r)
    } else if address == 0x1f80_1d8a {
        spec_key_on_post(o, n, val, 1, r)
    } else if address == 0x1f80_1d8c {
        r is Ok && spec_key_off_post(o, n, val, 0)
    } else if address == 0x1f80_1d8e {
        r is Ok && spec_key_off_post(o, n, val, 1)
    } else if address == 0x1f80_1d90 {
        r is Ok && n == (Spu { voices: n.voices, ..o }) && spec_voices_set(o.voices@, n.voices@, 0, 1, 15, val, |v: Voice, b: bool| Voice { modulation_enabled: b, ..v })
    } else if address == 0x1f80_1d92 {
        r is Ok && n == (Spu { voices: n.voices, ..o }) && spec_voices_set(o.voices@, n.voices@, 16, 0, 8, val, |v: Voice, b: bool| Voice { modulation_enabled: b, ..v })
    } else if address == 0x1f80_1d94 {
        r is Ok && n == (Spu { voices: n.voices, ..o }) && spec_voices_set(o.voices@, n.voices@, 0, 0, 16, val, |v: Voice, b: bool| Voice { noise_mode: b, ..v })
    } else if address == 0x1f80_1d96 {
        r is Ok && n == (Spu { voices: n.voices, ..o }) && spec_voices_set(o.voices@, n.voices@, 16, 0, 8, val, |v: Voice, b: bool| Voice { noise_mode: b, ..v })
    } else if address == 0x1f80_1d98 {
        r is Ok && n == (Spu { voices: n.voices, ..o }) && spec_voices_set(o.voices@, n.voices@, 0, 0, 16, val, |v: Voice, b: bool| Voice { reverb_mode: b, ..v })
    } else if address == 0x1f80_1d9a {
        r is Ok && n == (Spu { voices: n.voices, ..o }) && spec_voices_set(o.voices@, n.voices@, 16, 0, 8, val, |v: Voice, b: bool| Voice { reverb_mode: b, ..v })
    } else if address == 0x1f80_1d9c || address == 0x1f80_1d9e {
        r is Ok && n == o
    } else if address == 0x1f80_1da2 {
        r is Ok && n == (Spu {
            reverb: Reverb { m_base: (val as usize * 8) as usize, current_buffer_address: (val as usize * 8) as usize, ..o.reverb },
            ..o
        })
    } else if address == 0x1f80_1da4 {
        r is Ok && n == (Spu { memory: SoundRam { irq_address: (val as usize * 8) as usize, ..o.memory }, ..o })
    } else if address == 0x1f80_1da6 {
        r is Ok && n == (Spu { data_transfer_address: val, current_address: (val as usize * 8) as usize, ..o })
    } else if address == 0x1f80_1da8 {
        if (o.current_address & 0x7_ffff) + 2 <= SOUND_RAM_BYTES && o.current_address + 2 <= usize::MAX {
            r is Ok && spec_fifo_post(o, n, val)
        } else {
            r == Err::<(), SpuError>(SpuError::SampleAddress) && n == o
        }
    } else if address == 0x1f80_1dac {
        r is Ok && n == (Spu { data_transfer_type: spec_transfer_type(val), ..o })
    } else if address == 0x1f80_1daa {
        r is Ok && spec_set_control_post(o, n, val)
    } else {
        r == Err::<(), SpuError>(SpuError::Register) && n == o
    }
}

/// What a store of `val` to reverb register `address` does, `None` for an
/// address that is not one.
pub open spec fn spec_store_reverb(o: Spu, address: u32, val: u16) -> Option<Spu> {
    if address == 0x1f801d84 {
        Some(Spu { reverb: Reverb { output_volume_left: val as i16, ..o.reverb }, ..o })
    } else if address == 0x1f801d86 {
        Some(Spu { reverb: Reverb { output_volume_right: val as i16, ..o.reverb }, ..o })
    } else if address == 0x1f801dc0 {
        Some(Spu { reverb: Reverb { d_apf1: (val as usize * 8) as usize, ..o.reverb }, ..o })
    } else if address == 0x1f801dc2 {
        Some(Spu { reverb: Reverb { d_apf2: (val as usize * 8) as usize, ..o.reverb }, ..o })
    } else if address == 0x1f801dc4 {
        Some(Spu { reverb: Reverb { v_iir: val as i16 as i32, ..o.reverb }, ..o })
    } else if address == 0x1f801dc6 {
        Some(Spu { reverb: Reverb { v_comb1: val as i16 as i32, ..o.reverb }, ..o })
    } else if address == 0x1f801dc8 {
        Some(Spu { reverb: Reverb { v_comb2: val as i16 as i32, ..o.reverb }, ..o })
    } else if address == 0x1f801dca {
        Some(Spu { reverb: Reverb { v_comb3: val as i16 as i32, ..o.reverb }, ..o })
    } else if address == 0x1f801dcc {
        Some(Spu { reverb: Reverb { v_comb4: val as i16 as i32, ..o.reverb }, ..o })
    } else if address == 0x1f801dce {
        Some(Spu { reverb: Reverb { v_wall: val as i16 as i32, ..o.reverb }, ..o })
    } else if address == 0x1f801dd0 {
        Some(Spu { reverb: Reverb { v_apf1: val as i16 as i32, ..o.reverb }, ..o })
    } else if address == 0x1f801dd2 {
        Some(Spu { reverb: Reverb { v_apf2: val as i16 as i32, ..o.reverb }, ..o })
    } else if address == 0x1f801dd4 {
        Some(Spu { reverb: Reverb { ml_same: (val as usize * 8) as usize, ..o.reverb }, ..o })
    } else if address == 0x1f801dd6 {
        Some(Spu { reverb: Reverb { mr_same: (val as usize * 8) as usize, ..o.reverb }, ..o })
    } else if address == 0x1f801dd8 {
        Some(Spu { reverb: Reverb { ml_comb1: (val as usize * 8) as usize, ..o.reverb }, ..o })
    } else if address == 0x1f801dda {
        Some(Spu { reverb: Reverb { mr_comb1: (val as usize * 8) as usize, ..o.reverb }, ..o })
    } else if address == 0x1f801ddc {
        Some(Spu { reverb: Reverb { ml_comb2: (val as usize * 8) as usize, ..o.reverb }, ..o })
    } else if address == 0x1f801dde {
        Some(Spu { reverb: Reverb { mr_comb2: (val as usize * 8) as usize, ..o.reverb }, ..o })
    } else if address == 0x1f801de0 {
        Some(Spu { reverb: Reverb { dl_same: (val as usize * 8) as usize, ..o.reverb }, ..o })
    } else if address == 0x1f801de2 {
        Some(Spu { reverb: Reverb { dr_same: (val as usize * 8) as usize, ..o.reverb }, ..o })
    } else if address == 0x1f801de4 {
        Some(Spu { reverb: Reverb { ml_diff: (val as usize * 8) as usize, ..o.reverb }, ..o })
    } else if address == 0x1f801de6 {
        Some(Spu { reverb: Reverb { mr_diff: (val as usize * 8) as usize, ..o.reverb }, ..o })
    } else if address == 0x1f801de8 {
        Some(Spu { reverb: Reverb { ml_comb3: (val as usize * 8) as usize, ..o.reverb }, ..o })
    } else if address == 0x1f801dea {
        Some(Spu { reverb: Reverb { mr_comb3: (val as usize * 8) as usize, ..o.reverb }, ..o })
    } else if address == 0x1f801dec {
        Some(Spu { reverb: Reverb { ml_comb4: (val as usize * 8) as usize, ..o.reverb }, ..o })
    } else if address == 0x1f801dee {
        Some(Spu { reverb: Reverb { mr_comb4: (val as usize * 8) as usize, ..o.reverb }, ..o })
    } else if address == 0x1f801df0 {
        Some(Spu { reverb: Reverb { dl_diff: (val as usize * 8) as usize, ..o.reverb }, ..o })
    } else if address == 0x1f801df2 {
        Some(Spu { reverb: Reverb { dr_diff: (val as usize * 8) as usize, ..o.reverb }, ..o })
    } else if address == 0x1f801df4 {
        Some(Spu { reverb: Reverb { ml_apf1: (val as usize * 8) as usize, ..o.reverb }, ..o })
    } else if address == 0x1f801df6 {
        Some(Spu { reverb: Reverb { mr_apf1: (val as usize * 8) as usize, ..o.reverb }, ..o })
    } else if address == 0x1f801df8 {
        Some(Spu { reverb: Reverb { ml_apf2: (val as usize * 8) as usize, ..o.reverb }, ..o })
    } else if address == 0x1f801dfa {
        Some(Spu { reverb: Reverb { mr_apf2: (val as usize * 8) as usize, ..o.reverb }, ..o })
    } else if address == 0x1f801dfc {
        Some(Spu { reverb: Reverb { input_volume_left: val as i16, ..o.reverb }, ..o })
    } else if address == 0x1f801dfe {
        Some(Spu { reverb: Reverb { input_volume_right: val as i16, ..o.reverb }, ..o })
    } else {
        None
    }
}

/// Voice `v` after a store of `val` to its register at offset `reg`, `None`
/// for an offset that is not a register.
pub open spec fn spec_voice_write(v: Voice, reg: u32, val: u16) -> Option<Voice> {
    if reg == 0 {
        Some(Voice { volume_left: (val << 1u16) as i16, ..v })
    } else if reg == 2 {
        Some(Voice { volume_right: (val << 1u16) as i16, ..v })
    } else if reg == 4 {
        Some(Voice { adpcm_sample_rate: val, ..v })
    } else if reg == 6 {
        Some(Voice { adpcm_start_address: val, ..v })
    } else if reg == 8 || reg == 0xa {
        let r = spec_write_half(v.envelope.reg, val, reg == 0xa);
        Some(Voice { envelope: AdsrEnvelope { reg: r, sustain_level: (((r & 0xf) + 1) * 0x800) as u16, ..v.envelope }, ..v })
    } else if reg == 0xc {
        Some(Voice { envelope: AdsrEnvelope { level: val, ..v.envelope }, ..v })
    } else if reg == 0xe {
        Some(Voice { repeat_address: (val as usize * 8) as usize, ignore_loop_address: true, ..v })
    } else {
        None
    }
}

/// The 24 voices clocked in order, each with the previous voice's new
/// output (0 for the first), the sound RAM threaded through as `mems`.
pub open spec fn spec_clock_run(ov: Seq<Voice>, nv: Seq<Voice>, mems: Seq<SoundRam>) -> bool {
    &&& ov.len() == 24 && nv.len() == 24 && mems.len() == 25
    &&& forall|k: int|
        0 <= k < 24 ==> #[trigger] spec_voice_clock(
            ov[k],
            mems[k],
            spec_prev_output(nv, k),
            nv[k],
            mems[k + 1],
            Ok(()),
        )
}

/// The output of the voice before voice `k` (0 for the first).
pub open spec fn spec_prev_output(voices: Seq<Voice>, k: int) -> i16 {
    if k == 0 {
        0
    } else {
        voices[k - 1].current_sample
    }
}

/// A voice's output before panning: its sample (or the noise sample in
/// noise mode) scaled by its envelope level.
pub open spec fn spec_voice_out(v: Voice, noise: i16) -> i16 {
    spec_apply_volume(if v.noise_mode { noise } else { v.current_sample }, v.envelope.level as i16)
}

/// The sum of the first `k` voices' outputs scaled by their left (or right)
/// volume, counting only voices in reverb mode if `reverb_only`.
pub open spec fn spec_voice_sum(voices: Seq<Voice>, noise: i16, k: int, right: bool, reverb_only: bool) -> int
    decreases k,
{
    if k <= 0 {
        0
    } else {
        let v = voices[k - 1];
        let term = if reverb_only && !v.reverb_mode {
            0
        } else {
            spec_apply_volume(spec_voice_out(v, noise), if right { v.volume_right } else { v.volume_left }) as int
        };
        spec_voice_sum(voices, noise, k - 1, right, reverb_only) + term
    }
}

/// The mixer's left and right output for CD samples `cd_l`, `cd_r` (already
/// scaled by the CD volume), the summed voices and the reverb output.
pub open spec fn spec_mix_out(o: Spu, cd_l: i16, cd_r: i16, sum_l: int, sum_r: int, rev: Reverb) -> (i16, i16) {
    if !spec_control_bit(o.control, 14) {
        (cd_l, cd_r)
    } else {
        let l = spec_clamp(sum_l + cd_l + rev.l_out, -0x8000, 0x7fff) as i16;
        let r = spec_clamp(sum_r + cd_r + rev.r_out, -0x8000, 0x7fff) as i16;
        (spec_apply_volume(l, o.main_volume_left), spec_apply_volume(r, o.main_volume_right))
    }
}

fn clamp16(x: i32) -> (r: i16)
    ensures
        r == spec_clamp(x as int, -0x8000, 0x7fff),
{
    crate::spu_dsp::clamped_i16(x)
}

/// The number of voices a register half covers.
pub open spec fn spec_half_count(high: usize) -> int {
    if high == 1 {
        8
    } else {
        16
    }
}

/// The first voice a register half covers.
pub open spec fn spec_half_base(high: usize) -> int {
    16 * high
}

/// A bit mask over voices `base + lo .. base + hi`: bit `i` is `flag` of
/// voice `base + i`.
pub open spec fn spec_voice_bits(voices: Seq<Voice>, base: int, lo: int, hi: int, flag: spec_fn(Voice) -> bool) -> u16
    decreases hi - lo,
{
    if hi <= lo {
        0
    } else {
        let prev = spec_voice_bits(voices, base, lo, hi - 1, flag);
        if flag(voices[base + hi - 1]) {
            prev | (1u16 << (hi - 1) as u16)
        } else {
            prev
        }
    }
}

/// Bit `i` of `value`.
pub open spec fn spec_bit16(value: u16, i: int) -> bool {
    (value >> i as u16) & 1 == 1
}

/// The voices after setting, for each voice `base + i` with `lo <= i < hi`,
/// a field from bit `i` of `value`.
pub open spec fn spec_voices_set(
    o: Seq<Voice>,
    n: Seq<Voice>,
    base: int,
    lo: int,
    hi: int,
    value: u16,
    set: spec_fn(Voice, bool) -> Voice,
) -> bool {
    &&& n.len() == o.len()
    &&& forall|k: int|
        0 <= k < o.len() ==> #[trigger] n[k] == if base + lo <= k < base + hi {
            set(o[k], spec_bit16(value, k - base))
        } else {
            o[k]
        }
}

/// The encoding of a transfer type in the transfer control register.
pub open spec fn spec_transfer_code(t: DataTransferType) -> u16 {
    match t {
        DataTransferType::Fill => 0,
        DataTransferType::Normal => 4,
        DataTransferType::Rep2 => 6,
        DataTransferType::Rep4 => 8,
        DataTransferType::Rep8 => 10,
    }
}

/// The transfer type that bits 3-1 of the transfer control register select.
pub open spec fn spec_transfer_type(value: u16) -> DataTransferType {
    let t = (value >> 1u16) & 7;
    if t == 2 {
        DataTransferType::Normal
    } else if t == 3 {
        DataTransferType::Rep2
    } else if t == 4 {
        DataTransferType::Rep4
    } else if t == 5 {
        DataTransferType::Rep8
    } else {
        DataTransferType::Fill
    }
}

/// Voice `k` of a key on: with its bit set it is keyed on, from sound RAM
/// state `mems[k - base]` to `mems[k - base + 1]`; else it and the RAM are
/// left as they were.
pub open spec fn spec_key_on_step(value: u16, base: int, ov: Seq<Voice>, nv: Seq<Voice>, mems: Seq<SoundRam>, k: int) -> bool {
    let j = k - base;
    if spec_bit16(value, j) {
        spec_key_on_voice(ov[k], mems[j], nv[k], mems[j + 1])
    } else {
        nv[k] == ov[k] && mems[j + 1] == mems[j]
    }
}

/// A key on of the `count` voices from `base`, with `mems` the sound RAM
/// before each voice and after the last; the other voices stay as they
/// were.
pub open spec fn spec_key_on_run(value: u16, base: int, count: int, ov: Seq<Voice>, nv: Seq<Voice>, mems: Seq<SoundRam>) -> bool {
    &&& mems.len() == count + 1
    &&& nv.len() == ov.len()
    &&& forall|k: int| base <= k < base + count ==> #[trigger] spec_key_on_step(value, base, ov, nv, mems, k)
    &&& forall|k: int| 0 <= k < ov.len() && !(base <= k < base + count) ==> #[trigger] nv[k] == ov[k]
}

pub open spec fn spec_set_control_post(o: Spu, n: Spu, v: u16) -> bool {
    &&& n.control == v
    &&& n.noise.step == ((v >> 8u16) & 3) as u8
    &&& n.noise.shift == ((v >> 10u16) & 0xf) as u8
    &&& n.noise.lfsr == o.noise.lfsr
    &&& n.noise.timer == if n.noise.shift != o.noise.shift {
        0x2_0000int / crate::spu_dsp::spec_pow2(n.noise.shift as nat)
    } else {
        o.noise.timer as int
    }
    &&& n.memory == (SoundRam {
        irq_enabled: spec_control_bit(v, 6),
        irq: o.memory.irq && spec_control_bit(v, 6),
        ..o.memory
    })
    &&& n.voices == o.voices && n.reverb == o.reverb
    &&& n.capture_buffer_idx == o.capture_buffer_idx && n.current_address == o.current_address
}

pub open spec fn spec_fifo_post(o: Spu, n: Spu, value: u16) -> bool {
    &&& n == (Spu { memory: n.memory, current_address: n.current_address, ..o })
    &&& n.memory.irq_enabled == o.memory.irq_enabled && n.memory.irq_address == o.memory.irq_address
    &&& n.memory.irq == (o.memory.irq || (o.memory.irq_enabled && (o.current_address & 0x7_ffff) <= o.memory.irq_address < (
        o.current_address & 0x7_ffff) + 2))
    &&& n.current_address == o.current_address + 2
    &&& ({
        let a = (o.current_address & 0x7_ffff) as int;
        forall|i: int|
            0 <= i < SOUND_RAM_BYTES ==> #[trigger] n.memory.ram@[i] == if a <= i < a + 2 {
                (((value as u32) >> (8 * (i - a)) as u32) & 0xff) as u8
            } else {
                o.memory.ram@[i]
            }
    })
}

pub open spec fn spec_key_off_post(o: Spu, n: Spu, value: u16, high: usize) -> bool {
    &&& n == (Spu {
        voices: n.voices,
        voice_key_off: spec_write_half(o.voice_key_off, value, high == 1),
        ..o
    })
    &&& forall|k: int|
        0 <= k < 24 ==> #[trigger] n.voices[k] == if 16 * high <= k < 16 * high + (if high == 1 { 8int } else { 16int })
            && spec_bit16(value, k - 16 * high) {
            Voice {
                envelope: AdsrEnvelope { phase: AdsrPhase::Release, ..o.voices[k].envelope },
                key_on: false,
                ..o.voices[k]
            }
        } else {
            o.voices[k]
        }
}

pub open spec fn spec_key_on_post(o: Spu, n: Spu, value: u16, high: usize, r: Result<(), SpuError>) -> bool {
    &&& n.voice_key_on == spec_write_half(o.voice_key_on, value, high == 1)
    &&& (r is Ok) <==> (forall|i: int|
        0 <= i < (if high == 1 { 8int } else { 16int }) && spec_bit16(value, i) ==> #[trigger] o.voices[16 * high + i].adpcm_start_address as usize * 8 + 16 <= SOUND_RAM_BYTES)
    &&& r is Err ==> r == Err::<(), SpuError>(SpuError::SampleAddress)
    &&& r is Ok ==> n == (Spu {
        voices: n.voices,
        memory: n.memory,
        voice_key_on: n.voice_key_on,
        ..o
    })
    &&& r is Ok ==> exists|mems: Seq<SoundRam>|
        #[trigger] spec_key_on_run(value, spec_half_base(high), spec_half_count(high), o.voices@, n.voices@, mems)
            && mems[0] == o.memory && mems.last() == n.memory
}

/// The effect of `Spu::step`.
pub open spec fn spec_spu_step(o: Spu, n: Spu, r: Result<bool, SpuError>) -> bool {
    &&& r is Err ==> {
        &&& r == Err::<bool, SpuError>(SpuError::SampleAddress)
        &&& exists|k: int| #[trigger] spec_clock_fail(o, n, k)
        &&& n == (Spu { voices: n.voices, memory: n.memory, ..o })
    }
    &&& r is Ok ==> {
        &&& exists|mems: Seq<SoundRam>|
            #[trigger] spec_clock_run(o.voices@, n.voices@, mems) && mems[0] == o.memory
                && mems[24] == n.memory
        &&& spec_noise_clock(o.noise, n.noise)
        &&& n.last_irq_line == n.memory.irq
        &&& r == Ok::<bool, SpuError>(
            !o.last_irq_line && n.memory.irq && spec_control_bit(o.control, 6)
                && spec_control_bit(o.control, 15),
        )
        &&& n == (Spu {
            voices: n.voices,
            memory: n.memory,
            noise: n.noise,
            last_irq_line: n.last_irq_line,
            ..o
        })
    }
}

/// Voices `0..k` of `ov` clocked into `nv` in turn, the sound RAM going
/// through `mems`.
pub open spec fn spec_clock_prefix(ov: Seq<Voice>, nv: Seq<Voice>, mems: Seq<SoundRam>, k: int) -> bool {
    &&& ov.len() == 24 && nv.len() == 24 && mems.len() == k + 1
    &&& forall|j: int|
        0 <= j < k ==> #[trigger] spec_voice_clock(
            ov[j],
            mems[j],
            spec_prev_output(nv, j),
            nv[j],
            mems[j + 1],
            Ok(()),
        )
}

/// A tick of `o` stopped at voice `k` (`o` becomes `n`): the voices before
/// it clocked, and voice `k` reached a block past the end of sound RAM,
/// leaving the sound RAM of `n`; voices from `k` on are unchanged.
pub open spec fn spec_clock_fail(o: Spu, n: Spu, k: int) -> bool {
    &&& 0 <= k < 24
    &&& forall|j: int| k <= j < 24 ==> n.voices[j] == o.voices[j]
    &&& exists|mems: Seq<SoundRam>, vk: Voice|
        #![trigger spec_clock_prefix(o.voices@, n.voices@, mems, k), spec_voice_clock(o.voices[k], mems[k], spec_prev_output(n.voices@, k), vk, n.memory, Err(SpuError::SampleAddress))]
        spec_clock_prefix(o.voices@, n.voices@, mems, k) && mems[0] == o.memory && spec_voice_clock(
            o.voices[k],
            mems[k],
            spec_prev_output(n.voices@, k),
            vk,
            n.memory,
            Err(SpuError::SampleAddress),
        )
}

/// One SPU tick on the bus (`o` becomes `n`): the SPU steps; a rising
/// sound RAM IRQ line (with the IRQ and the SPU enabled) raises IRQ9. A
/// voice block past the end of sound RAM stops the tick there.
pub open spec fn spec_spu_clock(o: MemoryBus, n: MemoryBus, r: Result<(), SpuError>) -> bool {
    match r {
        Err(e) => {
            &&& e == SpuError::SampleAddress
            &&& spec_spu_step(o.spu, n.spu, Err(SpuError::SampleAddress))
            &&& n == (MemoryBus { spu: n.spu, ..o })
        },
        Ok(_) => {
            let edge = !o.spu.last_irq_line && n.spu.memory.irq && spec_control_bit(o.spu.control, 6) && spec_control_bit(
                o.spu.control,
                15,
            );
            &&& spec_spu_step(o.spu, n.spu, Ok(edge))
            &&& n.irqctl.status.0 == if edge {
                with_bit(o.irqctl.status.0, 9, true)
            } else {
                o.irqctl.status.0
            }
            &&& n.irqctl.mask == o.irqctl.mask
            &&& n == (MemoryBus { spu: n.spu, irqctl: n.irqctl, ..o })
        },
    }
}

/// A stereo sample `r` mixed on the bus (`o` becomes `n`): the CD audio
/// (when enabled) taken from the drive's buffer and mixed with the voices.
pub open spec fn spec_spu_mix_bus(o: MemoryBus, n: MemoryBus, r: [i16; 2]) -> bool {
    let en = spec_control_bit(o.spu.control, 0);
    let b = o.cdrom.audio_buffer@;
    &&& spec_mix(
        o.spu,
        n.spu,
        if en { spec_cd_sample(o.cdrom, 0) } else { 0 },
        if en { spec_cd_sample(o.cdrom, 1) } else { 0 },
        r,
    )
    &&& n.cdrom == (CDRom { audio_buffer: n.cdrom.audio_buffer, ..o.cdrom })
    &&& n.cdrom.audio_buffer@ == if en { b.skip(if b.len() < 2 { b.len() as int } else { 2 }) } else { b }
    &&& n == (MemoryBus { spu: n.spu, cdrom: n.cdrom, ..o })
}

/// A write of the low `width` bytes of `value` at the transfer address,
/// which moves on (`o` becomes `n`).
pub open spec fn spec_ram_write(o: Spu, n: Spu, width: int, value: u32) -> bool {
    let a = (o.current_address & 0x7_ffff) as int;
    &&& n.current_address == o.current_address + width
    &&& forall|i: int|
        0 <= i < SOUND_RAM_BYTES ==> #[trigger] n.memory.ram@[i] == if a <= i < a + width {
            ((value >> (8 * (i - a)) as u32) & 0xff) as u8
        } else {
            o.memory.ram@[i]
        }
    &&& n.memory.irq == (o.memory.irq || (o.memory.irq_enabled && a <= o.memory.irq_address < a + width))
    &&& n.memory.irq_enabled == o.memory.irq_enabled
    &&& n.memory.irq_address == o.memory.irq_address
    &&& n == (Spu { memory: n.memory, current_address: n.current_address, ..o })
}

/// One output sample `r` mixed from CD samples `cd_l` and `cd_r` (`o`
/// becomes `n`).
pub open spec fn spec_mix(o: Spu, n: Spu, cd_l: i16, cd_r: i16, r: [i16; 2]) -> bool {
                    let cl: i16 = if spec_control_bit(o.control, 0) { cd_l } else { 0 };
    let cr: i16 = if spec_control_bit(o.control, 0) { cd_r } else { 0 };
    let idx = o.capture_buffer_idx;
    let m1 = spec_write16(spec_write16(o.memory.ram@, idx as int, cl), idx + 0x400, cr);
    let irq1 = o.memory.irq || spec_hits(o.memory, idx as int) || spec_hits(o.memory, idx + 0x400);
    let cd_l2 = spec_apply_volume(cl, o.cd_audio_input_volume_left);
    let cd_r2 = spec_apply_volume(cr, o.cd_audio_input_volume_right);
    &&& n.memory.irq_enabled == o.memory.irq_enabled
    &&& n.memory.irq_address == o.memory.irq_address
    &&& if !spec_control_bit(o.control, 15) {
        &&& r[0] == cd_l2 && r[1] == cd_r2
        &&& n.memory.ram@ == m1 && n.memory.irq == irq1
        &&& n == (Spu { memory: n.memory, ..o })
    } else {
        let noise = o.noise.lfsr as i16;
        let m2 = spec_write16(
            spec_write16(m1, idx + 0x800, spec_voice_out(o.voices[1], noise)),
            idx + 0xc00,
            spec_voice_out(o.voices[3], noise),
        );
        let irq2 = irq1 || spec_hits(o.memory, idx + 0x800) || spec_hits(o.memory, idx + 0xc00);
        let rl = (spec_voice_sum(o.voices@, noise, 24, false, true) + if spec_control_bit(o.control, 2) { cd_l2 as int } else { 0 }) as i32;
        let rr = (spec_voice_sum(o.voices@, noise, 24, true, true) + if spec_control_bit(o.control, 2) { cd_r2 as int } else { 0 }) as i32;
        let master = spec_control_bit(o.control, 7);
        let rev = spec_tick_reverb(o.reverb, m2, rl, rr, master);
        let out = spec_mix_out(
            o,
            cd_l2,
            cd_r2,
            spec_voice_sum(o.voices@, noise, 24, false, false),
            spec_voice_sum(o.voices@, noise, 24, true, false),
            rev,
        );
        &&& r[0] == out.0 && r[1] == out.1
        &&& n.reverb == rev
        &&& n.memory.ram@ == spec_tick_mem(o.reverb, m2, rl, rr, master)
        &&& n.memory.irq == (irq2 || (o.reverb.half_tick && spec_step_hits(o.reverb, o.memory, master)))
        &&& n.capture_buffer_idx == ((idx + 2) as usize & 0x3ff)
        &&& n == (Spu {
            memory: n.memory,
            reverb: n.reverb,
            capture_buffer_idx: n.capture_buffer_idx,
            ..o
        })
    }
}

/// CD audio sample `k` of the drive's buffer as the mixer gets it: 0 when
/// muted or when the buffer holds no such sample.
pub open spec fn spec_cd_sample(c: CDRom, k: int) -> i16 {
    if c.audio_muted || c.audio_buffer@.len() <= k {
        0
    } else {
        c.audio_buffer@[k]
    }
}

impl Spu {
    pub open spec fn wf(&self) -> bool {
        &&& self.memory.wf()
        &&& self.reverb.wf()
        &&& self.noise.wf()
        &&& forall|i: int| 0 <= i < 24 ==> #[trigger] self.voices[i].wf()
        &&& self.capture_buffer_idx <= 0x3ff
    }

    /// A silent SPU: all registers 0, normal transfers, zeroed sound RAM.
    pub fn new() -> (r: Spu)
        ensures
            r.wf(),
            r.control == 0 && r.voice_key_on == 0 && r.voice_key_off == 0,
            r.main_volume_left == 0 && r.main_volume_right == 0,
            r.data_transfer_type == DataTransferType::Normal && r.current_address == 0,
            r.capture_buffer_idx == 0 && !r.last_irq_line,
    {
        let v = Voice {
            volume_left: 0,
            volume_right: 0,
            adpcm_sample_rate: 0,
            adpcm_start_address: 0,
            envelope: AdsrEnvelope::default(),
            current_address: 0,
            repeat_address: 0,
            pitch_counter: 0,
            decode_buffer: [0i16; 28],
            key_on: false,
            current_buffer_idx: 0,
            current_sample: 0,
            old_sample: 0,
            older_sample: 0,
            sample_history: [0i16; 4],
            noise_mode: false,
            reverb_mode: false,
            modulation_enabled: false,
            ignore_loop_address: false,
            reached_loop_end: false,
        };
        let voices = [v; 24];
        Spu {
            main_volume_left: 0,
            main_volume_right: 0,
            voice_key_on: 0,
            voice_key_off: 0,
            control: 0,
            cd_audio_input_volume_left: 0,
            cd_audio_input_volume_right: 0,
            external_audio_input_volume_left: 0,
            external_audio_input_volume_right: 0,
            data_transfer_type: DataTransferType::Normal,
            data_transfer_address: 0,
            current_address: 0,
            memory: SoundRam::new(),
            voices,
            reverb: Reverb::default(),
            noise: NoiseGenerator::default(),
            last_irq_line: false,
            capture_buffer_idx: 0,
        }
    }

    /// SPUCNT bit 0: CD audio enabled.
    pub fn cd_audio_enabled(&self) -> (r: bool)
        ensures
            r == spec_control_bit(self.control, 0),
    {
        (self.control >> 0) & 1 == 1
    }

    fn control_bit(&self, n: u16) -> (r: bool)
        requires
            n < 16,
        ensures
            r == spec_control_bit(self.control, n),
    {
        (self.control >> n) & 1 == 1
    }

    /// SPUSTAT: bit 6 the IRQ flag, bit 11 set while the capture buffers
    /// are written in their second half.
    pub fn spu_stat(&self) -> (r: u32)
        ensures
            r == ((if self.memory.irq { 0x40u32 } else { 0u32 }) | (if self.capture_buffer_idx > 0x200 { 0x800u32 } else { 0u32 })),
    {
        let irq: u32 = if self.memory.irq { 0x40 } else { 0 };
        let half: u32 = if self.capture_buffer_idx > 0x200 { 0x800 } else { 0 };
        irq | half
    }

    /// Writes SPUCNT: the noise rate follows bits 13-8, the IRQ is enabled
    /// by bit 6 and its flag cleared when that bit is off.
    pub fn set_control(&mut self, v: u16)
        requires
            old(self).wf(),
        ensures
            final(self).wf(),
            spec_set_control_post(*old(self), *final(self), v),
    {
        self.control = v;
        let step = ((v >> 8) & 3) as u8;
        let shift = ((v >> 10) & 0xf) as u8;
        proof {
            crate::bitfacts::lemma_and_le_u16(v >> 8u16, 3);
            crate::bitfacts::lemma_and_le_u16(v >> 10u16, 0xf);
        }
        self.noise.update_frequency(step, shift);
        let irq9 = (v >> 6) & 1 == 1;
        self.memory.irq_enabled = irq9;
        if !irq9 {
            self.memory.irq = false;
        }
    }

    /// Writes the transfer control register: bits 3-1 select the transfer
    /// type (0, 1, 6 and 7 fill).
    pub fn set_sound_ram_data_transfer_control(&mut self, value: u16)
        ensures
            *final(self) == (Spu { data_transfer_type: spec_transfer_type(value), ..*old(self) }),
    {
        let t = (value >> 1) & 0x7;
        self.data_transfer_type = if t == 2 {
            DataTransferType::Normal
        } else if t == 3 {
            DataTransferType::Rep2
        } else if t == 4 {
            DataTransferType::Rep4
        } else if t == 5 {
            DataTransferType::Rep8
        } else {
            DataTransferType::Fill
        };
    }

    /// The transfer control register as read back.
    pub fn get_sound_ram_data_transfer_control(&self) -> (r: u16)
        ensures
            r == spec_transfer_code(self.data_transfer_type),
    {
        let code: u16 = match self.data_transfer_type {
            DataTransferType::Fill => 0,
            DataTransferType::Normal => 2,
            DataTransferType::Rep2 => 3,
            DataTransferType::Rep4 => 4,
            DataTransferType::Rep8 => 5,
        };
        code * 2
    }

    /// Sets the transfer address (in units of 8 bytes); transfers continue
    /// from there.
    pub fn set_data_transfer_address(&mut self, value: u16)
        ensures
            *final(self) == (Spu { data_transfer_address: value, current_address: (value as usize * 8) as usize, ..*old(self) }),
    {
        self.data_transfer_address = value;
        self.current_address = value as usize * 8;
    }

    /// Writes the low `WIDTH` bytes of `value` at the transfer address
    /// (within sound RAM), little-endian, and moves the address on.
    pub fn ram_write<const WIDTH: usize>(&mut self, value: u32)
        requires
            old(self).wf(),
            WIDTH <= 4,
            old(self).current_address + WIDTH <= usize::MAX,
            (old(self).current_address & 0x7_ffff) + WIDTH <= SOUND_RAM_BYTES,
        ensures
            final(self).wf(),
            spec_ram_write(*old(self), *final(self), WIDTH as int, value),
    {
        let address = self.current_address & 0x7_ffff;
        proof {
            crate::bitfacts::lemma_and_le_usize(self.current_address, 0x7_ffff);
        }
        let mut i: usize = 0;
        while i < WIDTH
            invariant
                i <= WIDTH <= 4,
                address <= 0x7_ffff,
                self.memory.wf(),
                self.memory.irq_enabled == old(self).memory.irq_enabled,
                self.memory.irq_address == old(self).memory.irq_address,
                address + WIDTH <= SOUND_RAM_BYTES,
                address == old(self).current_address & 0x7_ffff,
                self.memory.irq == (old(self).memory.irq || (old(self).memory.irq_enabled && address <= old(
                    self,
                ).memory.irq_address < address + i)),
                forall|k: int|
                    0 <= k < SOUND_RAM_BYTES ==> #[trigger] self.memory.ram@[k] == if address <= k < address + i {
                        ((value >> (8 * (k - address)) as u32) & 0xff) as u8
                    } else {
                        old(self).memory.ram@[k]
                    },
                *self == (Spu { memory: self.memory, ..*old(self) }),
                self.reverb.wf() && self.noise.wf(),
                forall|j: int| 0 <= j < 24 ==> #[trigger] self.voices[j].wf(),
                self.capture_buffer_idx <= 0x3ff,
            decreases WIDTH - i,
        {
            let b = ((value >> (8 * i as u32)) & 0xff) as u8;
            self.memory.write(address + i, b);
            i = i + 1;
        }
        self.current_address = self.current_address + WIDTH;
    }

    /// Writes a halfword through the transfer FIFO.
    pub fn push_to_data_transfer_fifo(&mut self, value: u16)
        requires
            old(self).wf(),
            old(self).current_address + 2 <= usize::MAX,
            (old(self).current_address & 0x7_ffff) + 2 <= SOUND_RAM_BYTES,
        ensures
            final(self).wf(),
            spec_fifo_post(*old(self), *final(self), value),
    {
        self.ram_write::<2>(value as u32);
    }

    /// ENDX: bit `i` set when voice `16 * HIGH + i` has reached a loop end.
    pub fn endx<const HIGH: usize>(&self) -> (r: u16)
        requires
            HIGH <= 1,
        ensures
            r == spec_voice_bits(self.voices@, 16 * HIGH as int, 0, if HIGH == 1 { 8 } else { 16 }, |v: Voice| v.reached_loop_end),
    {
        let base = HIGH * 16;
        let count: usize = if HIGH == 1 { 8 } else { 16 };
        let mut acc: u16 = 0;
        let mut i: usize = 0;
        while i < count
            invariant
                i <= count,
                count == if HIGH == 1 { 8usize } else { 16usize },
                base == 16 * HIGH,
                HIGH <= 1,
                acc == spec_voice_bits(self.voices@, base as int, 0, i as int, |v: Voice| v.reached_loop_end),
            decreases count - i,
        {
            if self.voices[base + i].reached_loop_end {
                acc = acc | (1u16 << i as u16);
            }
            i = i + 1;
        }
        acc
    }

    /// The pitch modulation register: voices 1-14 in the low half, 16-23
    /// in the high half.
    pub fn get_pitch_modulation_enabled<const HIGH: usize>(&self) -> (r: u16)
        requires
            HIGH <= 1,
        ensures
            r == spec_voice_bits(
                self.voices@,
                16 * HIGH as int,
                if HIGH == 1 { 0 } else { 1 },
                if HIGH == 1 { 8 } else { 15 },
                |v: Voice| v.modulation_enabled,
            ),
    {
        let base = HIGH * 16;
        let count: usize = if HIGH == 1 { 8 } else { 15 };
        let start: usize = if HIGH == 1 { 0 } else { 1 };
        let mut acc: u16 = 0;
        let mut i: usize = start;
        while i < count
            invariant
                start <= i <= count,
                count == if HIGH == 1 { 8usize } else { 15usize },
                start == if HIGH == 1 { 0usize } else { 1usize },
                base == 16 * HIGH,
                HIGH <= 1,
                acc == spec_voice_bits(self.voices@, base as int, start as int, i as int, |v: Voice| v.modulation_enabled),
            decreases count - i,
        {
            if self.voices[base + i].modulation_enabled {
                acc = acc | (1u16 << i as u16);
            }
            i = i + 1;
        }
        acc
    }

    /// The noise mode register.
    pub fn get_noise_mode_enabled<const HIGH: usize>(&self) -> (r: u16)
        requires
            HIGH <= 1,
        ensures
            r == spec_voice_bits(self.voices@, 16 * HIGH as int, 0, if HIGH == 1 { 8 } else { 16 }, |v: Voice| v.noise_mode),
    {
        let base = HIGH * 16;
        let count: usize = if HIGH == 1 { 8 } else { 16 };
        let mut acc: u16 = 0;
        let mut i: usize = 0;
        while i < count
            invariant
                i <= count,
                count == if HIGH == 1 { 8usize } else { 16usize },
                base == 16 * HIGH,
                HIGH <= 1,
                acc == spec_voice_bits(self.voices@, base as int, 0, i as int, |v: Voice| v.noise_mode),
            decreases count - i,
        {
            if self.voices[base + i].noise_mode {
                acc = acc | (1u16 << i as u16);
            }
            i = i + 1;
        }
        acc
    }

    /// The reverb mode register.
    pub fn get_reverb_mode<const HIGH: usize>(&self) -> (r: u16)
        requires
            HIGH <= 1,
        ensures
            r == spec_voice_bits(self.voices@, 16 * HIGH as int, 0, if HIGH == 1 { 8 } else { 16 }, |v: Voice| v.reverb_mode),
    {
        let base = HIGH * 16;
        let count: usize = if HIGH == 1 { 8 } else { 16 };
        let mut acc: u16 = 0;
        let mut i: usize = 0;
        while i < count
            invariant
                i <= count,
                count == if HIGH == 1 { 8usize } else { 16usize },
                base == 16 * HIGH,
                HIGH <= 1,
                acc == spec_voice_bits(self.voices@, base as int, 0, i as int, |v: Voice| v.reverb_mode),
            decreases count - i,
        {
            if self.voices[base + i].reverb_mode {
                acc = acc | (1u16 << i as u16);
            }
            i = i + 1;
        }
        acc
    }

    /// Writes the pitch modulation register: voice `16 * HIGH + i` follows
    /// bit `i` (voices 1-14 in the low half, 16-23 in the high half).
    pub fn pitch_modulation_enable<const HIGH: usize>(&mut self, value: u16)
        requires
            HIGH <= 1,
            old(self).wf(),
        ensures
            final(self).wf(),
            *final(self) == (Spu { voices: final(self).voices, ..*old(self) }),
            spec_voices_set(
                old(self).voices@,
                final(self).voices@,
                16 * HIGH as int,
                if HIGH == 1 { 0 } else { 1 },
                if HIGH == 1 { 8 } else { 15 },
                value,
                |v: Voice, b: bool| Voice { modulation_enabled: b, ..v },
            ),
    {
        let base = HIGH * 16;
        let count: usize = if HIGH == 1 { 8 } else { 15 };
        let start: usize = if HIGH == 1 { 0 } else { 1 };
        let ghost o = *self;
        let mut i: usize = start;
        while i < count
            invariant
                start <= i <= count,
                count == if HIGH == 1 { 8usize } else { 15usize },
                start == if HIGH == 1 { 0usize } else { 1usize },
                base == 16 * HIGH,
                HIGH <= 1,
                *self == (Spu { voices: self.voices, ..o }),
                o.wf(),
                forall|k: int|
                    0 <= k < 24 ==> #[trigger] self.voices[k] == if base + start <= k < base + i {
                        Voice { modulation_enabled: spec_bit16(value, k - base), ..o.voices[k] }
                    } else {
                        o.voices[k]
                    },
            decreases count - i,
        {
            let mut v = self.voices[base + i];
            v.modulation_enabled = (value >> i as u16) & 1 == 1;
            self.voices[base + i] = v;
            i = i + 1;
        }
        proof {
            assert forall|j: int| 0 <= j < 24 implies #[trigger] self.voices[j].wf() by {
                assert(o.voices[j].wf());
            }
        }
    }

    /// Writes the noise mode register: voice `16 * HIGH + i` takes its
    /// samples from the noise generator when bit `i` is set.
    pub fn noise_mode_enable<const HIGH: usize>(&mut self, value: u16)
        requires
            HIGH <= 1,
            old(self).wf(),
        ensures
            final(self).wf(),
            *final(self) == (Spu { voices: final(self).voices, ..*old(self) }),
            spec_voices_set(
                old(self).voices@,
                final(self).voices@,
                16 * HIGH as int,
                0,
                if HIGH == 1 { 8 } else { 16 },
                value,
                |v: Voice, b: bool| Voice { noise_mode: b, ..v },
            ),
    {
        let base = HIGH * 16;
        let count: usize = if HIGH == 1 { 8 } else { 16 };
        let ghost o = *self;
        let mut i: usize = 0;
        while i < count
            invariant
                i <= count,
                count == if HIGH == 1 { 8usize } else { 16usize },
                base == 16 * HIGH,
                HIGH <= 1,
                *self == (Spu { voices: self.voices, ..o }),
                o.wf(),
                forall|k: int|
                    0 <= k < 24 ==> #[trigger] self.voices[k] == if base <= k < base + i {
                        Voice { noise_mode: spec_bit16(value, k - base), ..o.voices[k] }
                    } else {
                        o.voices[k]
                    },
            decreases count - i,
        {
            let mut v = self.voices[base + i];
            v.noise_mode = (value >> i as u16) & 1 == 1;
            self.voices[base + i] = v;
            i = i + 1;
        }
        proof {
            assert forall|j: int| 0 <= j < 24 implies #[trigger] self.voices[j].wf() by {
                assert(o.voices[j].wf());
            }
        }
    }

    /// Writes the reverb mode register: voice `16 * HIGH + i` feeds the
    /// reverb when bit `i` is set.
    pub fn reverb_mode<const HIGH: usize>(&mut self, value: u16)
        requires
            HIGH <= 1,
            old(self).wf(),
        ensures
            final(self).wf(),
            *final(self) == (Spu { voices: final(self).voices, ..*old(self) }),
            spec_voices_set(
                old(self).voices@,
                final(self).voices@,
                16 * HIGH as int,
                0,
                if HIGH == 1 { 8 } else { 16 },
                value,
                |v: Voice, b: bool| Voice { reverb_mode: b, ..v },
            ),
    {
        let base = HIGH * 16;
        let count: usize = if HIGH == 1 { 8 } else { 16 };
        let ghost o = *self;
        let mut i: usize = 0;
        while i < count
            invariant
                i <= count,
                count == if HIGH == 1 { 8usize } else { 16usize },
                base == 16 * HIGH,
                HIGH <= 1,
                *self == (Spu { voices: self.voices, ..o }),
                o.wf(),
                forall|k: int|
                    0 <= k < 24 ==> #[trigger] self.voices[k] == if base <= k < base + i {
                        Voice { reverb_mode: spec_bit16(value, k - base), ..o.voices[k] }
                    } else {
                        o.voices[k]
                    },
            decreases count - i,
        {
            let mut v = self.voices[base + i];
            v.reverb_mode = (value >> i as u16) & 1 == 1;
            self.voices[base + i] = v;
            i = i + 1;
        }
        proof {
            assert forall|j: int| 0 <= j < 24 implies #[trigger] self.voices[j].wf() by {
                assert(o.voices[j].wf());
            }
        }
    }

    /// Writes a half of KOFF: voice `16 * HIGH + i` starts its release when
    /// bit `i` is set.
    pub fn voice_key_off<const HIGH: usize>(&mut self, value: u16)
        requires
            HIGH <= 1,
            old(self).wf(),
        ensures
            final(self).wf(),
            spec_key_off_post(*old(self), *final(self), value, HIGH),
    {
        write_half::<HIGH>(&mut self.voice_key_off, value);
        let base = HIGH * 16;
        let count: usize = if HIGH == 1 { 8 } else { 16 };
        let ghost o = *self;
        let mut i: usize = 0;
        while i < count
            invariant
                i <= count,
                count == if HIGH == 1 { 8usize } else { 16usize },
                base == 16 * HIGH,
                HIGH <= 1,
                *self == (Spu { voices: self.voices, ..o }),
                o.wf(),
                forall|k: int|
                    0 <= k < 24 ==> #[trigger] self.voices[k] == if base <= k < base + i && spec_bit16(value, k - base) {
                        Voice {
                            envelope: AdsrEnvelope { phase: AdsrPhase::Release, ..o.voices[k].envelope },
                            key_on: false,
                            ..o.voices[k]
                        }
                    } else {
                        o.voices[k]
                    },
            decreases count - i,
        {
            if (value >> i as u16) & 1 == 1 {
                let mut v = self.voices[base + i];
                v.key_off();
                self.voices[base + i] = v;
            }
            i = i + 1;
        }
        proof {
            assert forall|j: int| 0 <= j < 24 implies #[trigger] self.voices[j].wf() by {
                assert(o.voices[j].wf());
            }
        }
    }

    /// Writes a half of KON: each voice `16 * HIGH + i` with bit `i` set is
    /// keyed on, in order, its first block decoded. A voice whose start
    /// address leaves no room for a block in sound RAM is an error, which
    /// ends the write with the voices before it keyed on.
    pub fn voice_key_on<const HIGH: usize>(&mut self, value: u16) -> (r: Result<(), SpuError>)
        requires
            HIGH <= 1,
            old(self).wf(),
        ensures
            final(self).wf(),
            spec_key_on_post(*old(self), *final(self), value, HIGH, r),
    {
        write_half::<HIGH>(&mut self.voice_key_on, value);
        let base = HIGH * 16;
        let count: usize = if HIGH == 1 { 8 } else { 16 };
        let ghost o = *self;
        let ghost mut mems: Seq<SoundRam> = seq![self.memory];
        let mut i: usize = 0;
        while i < count
            invariant
                i <= count,
                count == if HIGH == 1 { 8usize } else { 16usize },
                base == 16 * HIGH,
                HIGH <= 1,
                o.wf(),
                o == (Spu { voice_key_on: o.voice_key_on, ..*old(self) }),
                o.voice_key_on == spec_write_half(old(self).voice_key_on, value, HIGH == 1),
                self.memory.wf(),
                *self == (Spu { voices: self.voices, memory: self.memory, ..o }),
                mems.len() == i + 1,
                mems[0] == o.memory,
                mems.last() == self.memory,
                forall|j: int| 0 <= j < 24 ==> #[trigger] self.voices[j].wf(),
                forall|j: int|
                    0 <= j < i && spec_bit16(value, j) ==> #[trigger] o.voices[base + j].adpcm_start_address as usize * 8 + 16
                        <= SOUND_RAM_BYTES,
                forall|k: int| base <= k < base + i ==> #[trigger] spec_key_on_step(value, base as int, o.voices@, self.voices@, mems, k),
                forall|k: int| 0 <= k < 24 && !(base <= k < base + i) ==> #[trigger] self.voices[k] == o.voices[k],
            decreases count - i,
        {
            let ghost before = *self;
            let ghost old_mems = mems;
            if (value >> i as u16) & 1 == 1 {
                let mut v = self.voices[base + i];
                let r = v.key_on(&mut self.memory);
                if r.is_err() {
                    proof {
                        assert(spec_bit16(value, i as int));
                        assert(!(o.voices[base + i].adpcm_start_address as usize * 8 + 16 <= SOUND_RAM_BYTES));
                    }
                    return r;
                }
                self.voices[base + i] = v;
            }
            proof {
                mems = mems.push(self.memory);
                assert(spec_key_on_step(value, base as int, o.voices@, self.voices@, mems, (base + i) as int));
                assert forall|k: int| base <= k < base + i + 1 implies #[trigger] spec_key_on_step(
                    value,
                    base as int,
                    o.voices@,
                    self.voices@,
                    mems,
                    k,
                ) by {
                    if k < base + i {
                        assert(spec_key_on_step(value, base as int, o.voices@, before.voices@, old_mems, k));
                        assert(self.voices@[k] == before.voices@[k]);
                        assert(mems[k - base] == old_mems[k - base]);
                        assert(mems[k - base + 1] == old_mems[k - base + 1]);
                    }
                }
            }
            i = i + 1;
        }
        assert(o.voices@ == old(self).voices@);
        assert(spec_key_on_run(value, spec_half_base(HIGH), spec_half_count(HIGH), old(self).voices@, self.voices@, mems));
        Ok(())
    }

    /// Reads SPU register `address` (an absolute address), cut to the width
    /// of `T`; an address the SPU does not answer is an error.
    pub fn load<T: Addressable>(&self, address: u32) -> (r: Result<T, SpuError>)
        ensures
            match spec_spu_read(*self, address) {
                Some(v) => r matches Ok(x) && x.spec_as_u32() == v & T::spec_width().spec_mask(),
                None => r == Err::<T, SpuError>(SpuError::Register),
            },
    {
        let v: u32 = if 0x1f80_1c00 <= address && address <= 0x1f80_1d7f {
            let a = address - 0x1f80_1c00;
            let v = self.voices[(a / 0x10) as usize];
            let r = a % 0x10;
            if r == 0 {
                v.volume_left as u32
            } else if r == 2 {
                v.volume_right as u32
            } else if r == 4 {
                v.adpcm_sample_rate as u32
            } else if r == 6 {
                v.adpcm_start_address as u32
            } else if r == 8 {
                v.envelope.reg
            } else if r == 0xa {
                v.envelope.reg >> 16
            } else if r == 0xc {
                v.envelope.level as u32
            } else if r == 0xe {
                #[verifier::truncate]
                ((v.repeat_address / 8) as u32)
            } else {
                return Err(SpuError::Register);
            }
        } else if 0x1f80_1e00 <= address && address <= 0x1f80_1e5f {
            let a = address - 0x1f80_1e00;
            let v = self.voices[(a / 4) as usize];
            let r = a % 4;
            if r == 0 {
                v.volume_left as u32
            } else if r == 2 {
                v.volume_right as u32
            } else {
                return Err(SpuError::Register);
            }
        } else if address == 0x1f801d80 {
            self.main_volume_left as u32
        } else if address == 0x1f801d82 {
            self.main_volume_right as u32
        } else if address == 0x1f801d84 {
            self.reverb.output_volume_left as u32
        } else if address == 0x1f801d86 {
            self.reverb.output_volume_right as u32
        } else if address == 0x1f801d90 {
            self.get_pitch_modulation_enabled::<0>() as u32
        } else if address == 0x1f801d92 {
            self.get_pitch_modulation_enabled::<1>() as u32
        } else if address == 0x1f801d94 {
            self.get_noise_mode_enabled::<0>() as u32
        } else if address == 0x1f801d96 {
            self.get_noise_mode_enabled::<1>() as u32
        } else if address == 0x1f801d98 {
            self.get_reverb_mode::<0>() as u32
        } else if address == 0x1f801d9a {
            self.get_reverb_mode::<1>() as u32
        } else if address == 0x1f801da4 {
            #[verifier::truncate]
            ((self.memory.irq_address / 8) as u32)
        } else if address == 0x1f801db0 {
            self.cd_audio_input_volume_left as u32
        } else if address == 0x1f801db2 {
            self.cd_audio_input_volume_right as u32
        } else if address == 0x1f801db4 {
            self.external_audio_input_volume_left as u32
        } else if address == 0x1f801db6 {
            self.external_audio_input_volume_right as u32
        } else if address == 0x1f801dc0 {
            #[verifier::truncate]
            ((self.reverb.d_apf1 / 8) as u32)
        } else if address == 0x1f801dc2 {
            #[verifier::truncate]
            ((self.reverb.d_apf2 / 8) as u32)
        } else if address == 0x1f801dc4 {
            self.reverb.v_iir as u32
        } else if address == 0x1f801dc6 {
            self.reverb.v_comb1 as u32
        } else if address == 0x1f801dc8 {
            self.reverb.v_comb2 as u32
        } else if address == 0x1f801dca {
            self.reverb.v_comb3 as u32
        } else if address == 0x1f801dcc {
            self.reverb.v_comb4 as u32
        } else if address == 0x1f801dce {
            self.reverb.v_wall as u32
        } else if address == 0x1f801dd0 {
            self.reverb.v_apf1 as u32
        } else if address == 0x1f801dd2 {
            self.reverb.v_apf2 as u32
        } else if address == 0x1f801dd4 {
            #[verifier::truncate]
            ((self.reverb.ml_same / 8) as u32)
        } else if address == 0x1f801dd6 {
            #[verifier::truncate]
            ((self.reverb.mr_same / 8) as u32)
        } else if address == 0x1f801dd8 {
            #[verifier::truncate]
            ((self.reverb.ml_comb1 / 8) as u32)
        } else if address == 0x1f801dda {
            #[verifier::truncate]
            ((self.reverb.mr_comb1 / 8) as u32)
        } else if address == 0x1f801ddc {
            #[verifier::truncate]
            ((self.reverb.ml_comb2 / 8) as u32)
        } else if address == 0x1f801dde {
            #[verifier::truncate]
            ((self.reverb.mr_comb2 / 8) as u32)
        } else if address == 0x1f801de0 {
            #[verifier::truncate]
            ((self.reverb.dl_same / 8) as u32)
        } else if address == 0x1f801de2 {
            #[verifier::truncate]
            ((self.reverb.dr_same / 8) as u32)
        } else if address == 0x1f801de4 {
            #[verifier::truncate]
            ((self.reverb.ml_diff / 8) as u32)
        } else if address == 0x1f801de6 {
            #[verifier::truncate]
            ((self.reverb.mr_diff / 8) as u32)
        } else if address == 0x1f801de8 {
            #[verifier::truncate]
            ((self.reverb.ml_comb3 / 8) as u32)
        } else if address == 0x1f801dea {
            #[verifier::truncate]
            ((self.reverb.mr_comb3 / 8) as u32)
        } else if address == 0x1f801dec {
            #[verifier::truncate]
            ((self.reverb.ml_comb4 / 8) as u32)
        } else if address == 0x1f801dee {
            #[verifier::truncate]
            ((self.reverb.mr_comb4 / 8) as u32)
        } else if address == 0x1f801df0 {
            #[verifier::truncate]
            ((self.reverb.dl_diff / 8) as u32)
        } else if address == 0x1f801df2 {
            #[verifier::truncate]
            ((self.reverb.dr_diff / 8) as u32)
        } else if address == 0x1f801df4 {
            #[verifier::truncate]
            ((self.reverb.ml_apf1 / 8) as u32)
        } else if address == 0x1f801df6 {
            #[verifier::truncate]
            ((self.reverb.mr_apf1 / 8) as u32)
        } else if address == 0x1f801df8 {
            #[verifier::truncate]
            ((self.reverb.ml_apf2 / 8) as u32)
        } else if address == 0x1f801dfa {
            #[verifier::truncate]
            ((self.reverb.mr_apf2 / 8) as u32)
        } else if address == 0x1f801dfc {
            self.reverb.input_volume_left as u32
        } else if address == 0x1f801dfe {
            self.reverb.input_volume_right as u32
        } else if address == 0x1f801d88 {
            self.voice_key_on
        } else if address == 0x1f801d8a {
            self.voice_key_on >> 16
        } else if address == 0x1f801d8c {
            self.voice_key_off
        } else if address == 0x1f801d8e {
            self.voice_key_off >> 16
        } else if address == 0x1f801da6 {
            #[verifier::truncate]
            (self.data_transfer_address as u32)
        } else if address == 0x1f801d9c {
            self.endx::<0>() as u32
        } else if address == 0x1f801d9e {
            self.endx::<1>() as u32
        } else if address == 0x1f801daa {
            self.control as u32
        } else if address == 0x1f801dae {
            self.spu_stat()
        } else if address == 0x1f801dac {
            self.get_sound_ram_data_transfer_control() as u32
        } else if address == 0x1f801db8 {
            self.main_volume_left as u32
        } else if address == 0x1f801dba {
            self.main_volume_right as u32
        } else {
            return Err(SpuError::Register);
        };
        Ok(T::from_u32(v))
    }

    /// Stores `val` to reverb register `address`; tells whether it was one.
    fn store_reverb(&mut self, address: u32, val: u16) -> (handled: bool)
        requires
            old(self).wf(),
        ensures
            final(self).wf(),
            handled == spec_store_reverb(*old(self), address, val) is Some,
            handled ==> *final(self) == spec_store_reverb(*old(self), address, val)->0,
            !handled ==> *final(self) == *old(self),
    {
        if address == 0x1f801d84 {
            self.reverb.output_volume_left = val as i16;
            return true;
        }
        if address == 0x1f801d86 {
            self.reverb.output_volume_right = val as i16;
            return true;
        }
        if address == 0x1f801dc0 {
            self.reverb.d_apf1 = val as usize * 8;
            return true;
        }
        if address == 0x1f801dc2 {
            self.reverb.d_apf2 = val as usize * 8;
            return true;
        }
        if address == 0x1f801dc4 {
            self.reverb.v_iir = val as i16 as i32;
            return true;
        }
        if address == 0x1f801dc6 {
            self.reverb.v_comb1 = val as i16 as i32;
            return true;
        }
        if address == 0x1f801dc8 {
            self.reverb.v_comb2 = val as i16 as i32;
            return true;
        }
        if address == 0x1f801dca {
            self.reverb.v_comb3 = val as i16 as i32;
            return true;
        }
        if address == 0x1f801dcc {
            self.reverb.v_comb4 = val as i16 as i32;
            return true;
        }
        if address == 0x1f801dce {
            self.reverb.v_wall = val as i16 as i32;
            return true;
        }
        if address == 0x1f801dd0 {
            self.reverb.v_apf1 = val as i16 as i32;
            return true;
        }
        if address == 0x1f801dd2 {
            self.reverb.v_apf2 = val as i16 as i32;
            return true;
        }
        if address == 0x1f801dd4 {
            self.reverb.ml_same = val as usize * 8;
            return true;
        }
        if address == 0x1f801dd6 {
            self.reverb.mr_same = val as usize * 8;
            return true;
        }
        if address == 0x1f801dd8 {
            self.reverb.ml_comb1 = val as usize * 8;
            return true;
        }
        if address == 0x1f801dda {
            self.reverb.mr_comb1 = val as usize * 8;
            return true;
        }
        if address == 0x1f801ddc {
            self.reverb.ml_comb2 = val as usize * 8;
            return true;
        }
        if address == 0x1f801dde {
            self.reverb.mr_comb2 = val as usize * 8;
            return true;
        }
        if address == 0x1f801de0 {
            self.reverb.dl_same = val as usize * 8;
            return true;
        }
        if address == 0x1f801de2 {
            self.reverb.dr_same = val as usize * 8;
            return true;
        }
        if address == 0x1f801de4 {
            self.reverb.ml_diff = val as usize * 8;
            return true;
        }
        if address == 0x1f801de6 {
            self.reverb.mr_diff = val as usize * 8;
            return true;
        }
        if address == 0x1f801de8 {
            self.reverb.ml_comb3 = val as usize * 8;
            return true;
        }
        if address == 0x1f801dea {
            self.reverb.mr_comb3 = val as usize * 8;
            return true;
        }
        if address == 0x1f801dec {
            self.reverb.ml_comb4 = val as usize * 8;
            return true;
        }
        if address == 0x1f801dee {
            self.reverb.mr_comb4 = val as usize * 8;
            return true;
        }
        if address == 0x1f801df0 {
            self.reverb.dl_diff = val as usize * 8;
            return true;
        }
        if address == 0x1f801df2 {
            self.reverb.dr_diff = val as usize * 8;
            return true;
        }
        if address == 0x1f801df4 {
            self.reverb.ml_apf1 = val as usize * 8;
            return true;
        }
        if address == 0x1f801df6 {
            self.reverb.mr_apf1 = val as usize * 8;
            return true;
        }
        if address == 0x1f801df8 {
            self.reverb.ml_apf2 = val as usize * 8;
            return true;
        }
        if address == 0x1f801dfa {
            self.reverb.mr_apf2 = val as usize * 8;
            return true;
        }
        if address == 0x1f801dfc {
            self.reverb.input_volume_left = val as i16;
            return true;
        }
        if address == 0x1f801dfe {
            self.reverb.input_volume_right = val as i16;
            return true;
        }
        false
    }

    /// Writes SPU register `address` (an absolute address) with the low
    /// halfword of `value`.
    pub fn store<T: Addressable>(&mut self, address: u32, value: T) -> (r: Result<(), SpuError>)
        requires
            old(self).wf(),
        ensures
            final(self).wf(),
            spec_spu_store(*old(self), *final(self), address, value.spec_as_u32() as u16, r),
    {
        let x = value.as_u32();
        #[verifier::truncate]
        let val = x as u16;
        if self.store_reverb(address, val) {
            return Ok(());
        }
        if 0x1f80_1c00 <= address && address <= 0x1f80_1d7f {
            let a = address - 0x1f80_1c00;
            let i = (a / 0x10) as usize;
            let reg = a % 0x10;
            let mut v = self.voices[i];
            let ghost v0 = v;
            assert(v0.wf());
            if reg == 0 {
                v.volume_left = (val << 1) as i16;
            } else if reg == 2 {
                v.volume_right = (val << 1) as i16;
            } else if reg == 4 {
                v.adpcm_sample_rate = val;
            } else if reg == 6 {
                v.set_start_address(val);
            } else if reg == 8 {
                v.envelope.set_reg::<0>(val);
            } else if reg == 0xa {
                v.envelope.set_reg::<1>(val);
            } else if reg == 0xc {
                v.envelope.level = val;
            } else if reg == 0xe {
                v.set_repeat_address(val);
            } else {
                return Err(SpuError::Register);
            }
            assert(v.current_buffer_idx == v0.current_buffer_idx && v.pitch_counter == v0.pitch_counter);
            self.voices[i] = v;
            proof {
                assert forall|j: int| 0 <= j < 24 implies #[trigger] self.voices[j].wf() by {
                    if j != i {
                        assert(self.voices[j] == old(self).voices[j]);
                    } else {
                        assert(old(self).voices[j].wf());
                    }
                }
            }
            return Ok(());
        }
        if address == 0x1f801d80 {
            self.main_volume_left = (val << 1) as i16;
            return Ok(());
        }
        if address == 0x1f801d82 {
            self.main_volume_right = (val << 1) as i16;
            return Ok(());
        }
        if address == 0x1f801db0 {
            self.cd_audio_input_volume_left = val as i16;
            return Ok(());
        }
        if address == 0x1f801db2 {
            self.cd_audio_input_volume_right = val as i16;
            return Ok(());
        }
        if address == 0x1f801db4 {
            self.external_audio_input_volume_left = val as i16;
            return Ok(());
        }
        if address == 0x1f801db6 {
            self.external_audio_input_volume_right = val as i16;
            return Ok(());
        }
        if address == 0x1f80_1d88 {
            return self.voice_key_on::<0>(val);
        }
        if address == 0x1f80_1d8a {
            return self.voice_key_on::<1>(val);
        }
        if address == 0x1f80_1d8c {
            self.voice_key_off::<0>(val);
            return Ok(());
        }
        if address == 0x1f80_1d8e {
            self.voice_key_off::<1>(val);
            return Ok(());
        }
        if address == 0x1f80_1d90 {
            self.pitch_modulation_enable::<0>(val);
            return Ok(());
        }
        if address == 0x1f80_1d92 {
            self.pitch_modulation_enable::<1>(val);
            return Ok(());
        }
        if address == 0x1f80_1d94 {
            self.noise_mode_enable::<0>(val);
            return Ok(());
        }
        if address == 0x1f80_1d96 {
            self.noise_mode_enable::<1>(val);
            return Ok(());
        }
        if address == 0x1f80_1d98 {
            self.reverb_mode::<0>(val);
            return Ok(());
        }
        if address == 0x1f80_1d9a {
            self.reverb_mode::<1>(val);
            return Ok(());
        }
        if address == 0x1f80_1d9c || address == 0x1f80_1d9e {
            return Ok(());
        }
        if address == 0x1f80_1da2 {
            self.reverb.set_base_address(val);
            return Ok(());
        }
        if address == 0x1f80_1da4 {
            self.memory.irq_address = val as usize * 8;
            return Ok(());
        }
        if address == 0x1f80_1da6 {
            self.set_data_transfer_address(val);
            return Ok(());
        }
        if address == 0x1f80_1da8 {
            proof {
                crate::bitfacts::lemma_and_le_usize(self.current_address, 0x7_ffff);
            }
            if (self.current_address & 0x7_ffff) + 2 <= SOUND_RAM_BYTES && self.current_address <= usize::MAX - 2 {
                self.push_to_data_transfer_fifo(val);
                return Ok(());
            }
            return Err(SpuError::SampleAddress);
        }
        if address == 0x1f80_1dac {
            self.set_sound_ram_data_transfer_control(val);
            return Ok(());
        }
        if address == 0x1f80_1daa {
            self.set_control(val);
            return Ok(());
        }
        Err(SpuError::Register)
    }

    /// Writes `sample` into the capture buffer at `offset` (0, 400h, 800h or
    /// C00h: CD left, CD right, voice 1, voice 3).
    pub fn write_capture_buffer(&mut self, sample: i16, offset: usize)
        requires
            old(self).wf(),
            offset <= 0xc00,
        ensures
            final(self).wf(),
            *final(self) == (Spu { memory: final(self).memory, ..*old(self) }),
            final(self).memory.ram@ == spec_write16(old(self).memory.ram@, old(self).capture_buffer_idx + offset, sample),
            final(self).memory.irq == (old(self).memory.irq || spec_hits(old(self).memory, old(self).capture_buffer_idx + offset)),
            final(self).memory.irq_enabled == old(self).memory.irq_enabled,
            final(self).memory.irq_address == old(self).memory.irq_address,
    {
        let a = self.capture_buffer_idx + offset;
        let v = sample as u16;
        self.memory.write(a, v as u8);
        self.memory.write(a + 1, (v >> 8) as u8);
    }

    /// One SPU tick: each voice is clocked in order (pitch modulation takes
    /// the previous voice's new output), then the noise generator; tells
    /// whether the sound RAM IRQ line rose with the IRQ and the SPU enabled.
    /// An error leaves the voices in an unspecified state.
    pub fn step(&mut self) -> (r: Result<bool, SpuError>)
        requires
            old(self).wf(),
        ensures
            final(self).wf(),
            spec_spu_step(*old(self), *final(self), r),
    {
        let ghost o = *self;
        let ghost mut mems: Seq<SoundRam> = seq![self.memory];
        let mut prev: i16 = 0;
        let mut i: usize = 0;
        while i < 24
            invariant
                i <= 24,
                o.wf(),
                o == *old(self),
                self.memory.wf(),
                *self == (Spu { voices: self.voices, memory: self.memory, ..o }),
                mems.len() == i + 1,
                mems[0] == o.memory,
                mems.last() == self.memory,
                prev == if i == 0 { 0i16 } else { self.voices[i - 1].current_sample },
                forall|j: int| 0 <= j < 24 ==> #[trigger] self.voices[j].wf(),
                forall|k: int| i <= k < 24 ==> #[trigger] self.voices[k] == o.voices[k],
                forall|k: int|
                    0 <= k < i ==> #[trigger] spec_voice_clock(
                        o.voices[k],
                        mems[k],
                        spec_prev_output(self.voices@, k),
                        self.voices[k],
                        mems[k + 1],
                        Ok(()),
                    ),
            decreases 24 - i,
        {
            let ghost before = *self;
            let ghost old_mems = mems;
            let ghost prev_before = prev;
            let mut v = self.voices[i];
            let ghost v0 = v;
            let r = v.clock(&mut self.memory, prev);
            if r.is_err() {
                proof {
                    assert forall|j: int| 0 <= j < 24 implies #[trigger] self.voices[j].wf() by {
                        assert(before.voices[j].wf());
                    }
                    assert(spec_prev_output(self.voices@, i as int) == prev_before);
                    assert(spec_clock_prefix(o.voices@, self.voices@, mems, i as int));
                    assert(spec_clock_fail(o, *self, i as int));
                    assert(o == *old(self));
                    assert(*self == (Spu { voices: self.voices, memory: self.memory, ..o }));
                    assert(exists|k: int| #[trigger] spec_clock_fail(o, *self, k));
                }
                return Err(SpuError::SampleAddress);
            }
            prev = v.current_sample;
            self.voices[i] = v;
            proof {
                mems = mems.push(self.memory);
                assert forall|k: int| 0 <= k < i + 1 implies #[trigger] spec_voice_clock(
                    o.voices[k],
                    mems[k],
                    spec_prev_output(self.voices@, k),
                    self.voices[k],
                    mems[k + 1],
                    Ok(()),
                ) by {
                    if k < i {
                        assert(spec_voice_clock(
                            o.voices[k],
                            old_mems[k],
                            spec_prev_output(before.voices@, k),
                            before.voices[k],
                            old_mems[k + 1],
                            Ok(()),
                        ));
                        assert(self.voices[k] == before.voices[k]);
                        assert(k > 0 ==> self.voices[k - 1] == before.voices[k - 1]);
                        assert(spec_prev_output(self.voices@, k) == spec_prev_output(before.voices@, k));
                        assert(mems[k] == old_mems[k] && mems[k + 1] == old_mems[k + 1]);
                    } else {
                        assert(k > 0 ==> self.voices[k - 1] == before.voices[k - 1]);
                        assert(mems[k] == before.memory);
                        assert(mems[k + 1] == self.memory);
                        assert(self.voices[k] == v);
                        assert(v0 == o.voices[k]);
                        assert(prev_before == spec_prev_output(self.voices@, k));
                        assert(r == Ok::<(), SpuError>(()));
                    }
                }
            }
            i = i + 1;
        }
        self.noise.clock();
        let irq_line = self.memory.irq;
        let irq9 = (self.control >> 6) & 1 == 1;
        let enabled = (self.control >> 15) & 1 == 1;
        let edge = !self.last_irq_line && irq_line && irq9 && enabled;
        self.last_irq_line = irq_line;
        assert(spec_clock_run(o.voices@, self.voices@, mems));
        Ok(edge)
    }

    /// The output of voice `i` before panning.
    fn voice_out(&self, i: usize, noise: i16) -> (r: i16)
        requires
            i < 24,
        ensures
            r == spec_voice_out(self.voices[i as int], noise),
    {
        let v = &self.voices[i];
        #[verifier::truncate]
        let level = v.envelope.level as i16;
        if v.noise_mode {
            apply_volume(noise, level)
        } else {
            apply_volume(v.current_sample, level)
        }
    }

    /// The voices' outputs summed: left, right, and left and right of the
    /// voices in reverb mode.
    fn sum_voices(&self, noise: i16) -> (r: (i32, i32, i32, i32))
        ensures
            r.0 == spec_voice_sum(self.voices@, noise, 24, false, false),
            r.1 == spec_voice_sum(self.voices@, noise, 24, true, false),
            r.2 == spec_voice_sum(self.voices@, noise, 24, false, true),
            r.3 == spec_voice_sum(self.voices@, noise, 24, true, true),
            -0xc_0000 <= r.0 <= 0xc_0000 && -0xc_0000 <= r.1 <= 0xc_0000,
            -0xc_0000 <= r.2 <= 0xc_0000 && -0xc_0000 <= r.3 <= 0xc_0000,
    {
        let mut ml: i32 = 0;
        let mut mr: i32 = 0;
        let mut rl: i32 = 0;
        let mut rr: i32 = 0;
        let mut i: usize = 0;
        while i < 24
            invariant
                i <= 24,
                
                ml == spec_voice_sum(self.voices@, noise, i as int, false, false),
                mr == spec_voice_sum(self.voices@, noise, i as int, true, false),
                rl == spec_voice_sum(self.voices@, noise, i as int, false, true),
                rr == spec_voice_sum(self.voices@, noise, i as int, true, true),
                -0x8000 * i <= ml <= 0x8000 * i,
                -0x8000 * i <= mr <= 0x8000 * i,
                -0x8000 * i <= rl <= 0x8000 * i,
                -0x8000 * i <= rr <= 0x8000 * i,
            decreases 24 - i,
        {
            let env = self.voice_out(i, noise);
            let v = &self.voices[i];
            let ol = apply_volume(env, v.volume_left);
            let or = apply_volume(env, v.volume_right);
            if v.reverb_mode {
                rl = rl + ol as i32;
                rr = rr + or as i32;
            }
            ml = ml + ol as i32;
            mr = mr + or as i32;
            i = i + 1;
        }
        (ml, mr, rl, rr)
    }

    /// Mixes one output sample from the CD samples `cd_l`, `cd_r`: the CD
    /// audio (used only with CD audio enabled) scaled by the CD volume, then, with the SPU enabled,
    /// every voice's output scaled by its envelope and panned by its volume,
    /// the reverb fed from the voices in reverb mode (and the CD with CD
    /// reverb), and the sum clamped and scaled by the main volume, unless
    /// muted. The CD samples and voices 1 and 3 go to the capture buffers.
    #[verifier::rlimit(40)]
    pub fn mix_samples(&mut self, cd_l: i16, cd_r: i16) -> (r: [i16; 2])
        requires
            old(self).wf(),
        ensures
            final(self).wf(),
            spec_mix(*old(self), *final(self), cd_l, cd_r, r),
    {
        let ghost o = *self;
        let cd_on = self.cd_audio_enabled();
        let cl: i16 = if cd_on { cd_l } else { 0 };
        let cr: i16 = if cd_on { cd_r } else { 0 };
        self.write_capture_buffer(cl, 0);
        self.write_capture_buffer(cr, 0x400);
        let cd_l2 = apply_volume(cl, self.cd_audio_input_volume_left);
        let cd_r2 = apply_volume(cr, self.cd_audio_input_volume_right);
        if !self.control_bit(15) {
            return [cd_l2, cd_r2];
        }
        #[verifier::truncate]
        let noise = self.noise.lfsr as i16;
        let (ml0, mr0, rl0, rr0) = self.sum_voices(noise);
        let mut ml = ml0;
        let mut mr = mr0;
        let mut rl = rl0;
        let mut rr = rr0;
        let e1 = self.voice_out(1, noise);
        let e3 = self.voice_out(3, noise);
        self.write_capture_buffer(e1, 0x800);
        self.write_capture_buffer(e3, 0xc00);
        self.capture_buffer_idx = (self.capture_buffer_idx + 2) & 0x3ff;
        proof {
            crate::bitfacts::lemma_and_le_usize((o.capture_buffer_idx + 2) as usize, 0x3ff);
        }
        if self.control_bit(2) {
            rl = rl + cd_l2 as i32;
            rr = rr + cd_r2 as i32;
        }
        let master = self.control_bit(7);
        self.reverb.tick([rl, rr], &mut self.memory, master);
        ml = ml + cd_l2 as i32 + self.reverb.l_out;
        mr = mr + cd_r2 as i32 + self.reverb.r_out;
        if !self.control_bit(14) {
            return [cd_l2, cd_r2];
        }
        let cml = clamp16(ml);
        let cmr = clamp16(mr);
        [apply_volume(cml, self.main_volume_left), apply_volume(cmr, self.main_volume_right)]
    }

    /// Mixes one output sample, taking a left and a right CD sample off the
    /// drive's audio buffer when CD audio is enabled.
    pub fn mix(&mut self, cdrom: &mut CDRom) -> (r: [i16; 2])
        requires
            old(self).wf(),
        ensures
            final(self).wf(),
            ({
                let en = spec_control_bit(old(self).control, 0);
                let b = old(cdrom).audio_buffer@;
                &&& spec_mix(
                    *old(self),
                    *final(self),
                    if en { spec_cd_sample(*old(cdrom), 0) } else { 0 },
                    if en { spec_cd_sample(*old(cdrom), 1) } else { 0 },
                    r,
                )
                &&& *final(cdrom) == (CDRom { audio_buffer: final(cdrom).audio_buffer, ..*old(cdrom) })
                &&& final(cdrom).audio_buffer@ == if en { b.skip(if b.len() < 2 { b.len() as int } else { 2 }) } else { b }
            }),
    {
        let (cd_l, cd_r) = if self.cd_audio_enabled() {
            let ghost b = cdrom.audio_buffer@;
            let l = cdrom.get_audio_sample();
            let r = cdrom.get_audio_sample();
            proof {
                if b.len() >= 2 {
                    assert(cdrom.audio_buffer@ =~= b.skip(2));
                } else {
                    assert(cdrom.audio_buffer@ =~= b.skip(b.len() as int));
                }
            }
            (l, r)
        } else {
            (0, 0)
        };
        self.mix_samples(cd_l, cd_r)
    }

    /// One SPU tick on the bus: the SPU steps, and a rising sound RAM IRQ
    /// line (with the IRQ and the SPU enabled) raises IRQ9.
    pub fn clock(memory_bus: &mut MemoryBus) -> (r: Result<(), SpuError>)
        requires
            old(memory_bus).wf(),
        ensures
            final(memory_bus).wf(),
            spec_spu_clock(*old(memory_bus), *final(memory_bus), r),
    {
        match memory_bus.spu.step() {
            Ok(edge) => {
                if edge {
                    memory_bus.irqctl.status.set_spu(true);
                }
                Ok(())
            },
            Err(e) => Err(e),
        }
    }
}

} // verus!
