use vstd::prelude::*;
use crate::spu_dsp::{decode_adpcm_block, spec_adpcm_history, spec_clamp, spec_pow2, spec_shr15, lemma_pow2_bounds};

verus! {

/// Size of the SPU's sound RAM in bytes.
pub const SOUND_RAM_BYTES: usize = 0x8_0000;

/// Largest value of the envelope's update counter.
pub const ENVELOPE_COUNTER_MAX: u32 = 0x40_0000;

/// Why the SPU could not carry out an access or a step.
#[derive(Clone, Copy, PartialEq, Eq, Structural, Debug)]
pub enum SpuError {
    /// The register is not handled for this access.
    Register,
    /// A voice's sample block lies past the end of sound RAM.
    SampleAddress,
}

/// The SPU's 512 KiB of sound RAM, with the address that raises IRQ9 when
/// it is touched.
pub struct SoundRam {
    pub ram: Vec<u8>,
    pub irq_enabled: bool,
    pub irq_address: usize,
    /// Set once an access touches `irq_address` while the IRQ is enabled.
    pub irq: bool,
}

/// The IRQ flag after an access to bytes `lo..hi`.
pub open spec fn spec_touched(s: SoundRam, lo: int, hi: int) -> bool {
    s.irq || (s.irq_enabled && lo <= s.irq_address < hi)
}

impl SoundRam {
    pub open spec fn wf(&self) -> bool {
        self.ram@.len() == SOUND_RAM_BYTES
    }

    /// Zero-filled sound RAM with the IRQ disabled.
    pub fn new() -> (r: SoundRam)
        ensures
            r.wf(),
            forall|i: int| 0 <= i < SOUND_RAM_BYTES ==> r.ram@[i] == 0,
            !r.irq_enabled && r.irq_address == 0 && !r.irq,
    {
        SoundRam { ram: vec![0u8; SOUND_RAM_BYTES], irq_enabled: false, irq_address: 0, irq: false }
    }

    /// Reads byte `i`.
    pub fn read(&mut self, i: usize) -> (r: u8)
        requires
            old(self).wf(),
            i < SOUND_RAM_BYTES,
        ensures
            r == old(self).ram@[i as int],
            *final(self) == (SoundRam { irq: spec_touched(*old(self), i as int, i + 1), ..*old(self) }),
    {
        if self.irq_enabled && i == self.irq_address {
            self.irq = true;
        }
        self.ram[i]
    }

    /// Writes byte `i`.
    pub fn write(&mut self, i: usize, v: u8)
        requires
            old(self).wf(),
            i < SOUND_RAM_BYTES,
        ensures
            final(self).wf(),
            final(self).ram@ == old(self).ram@.update(i as int, v),
            final(self).irq == spec_touched(*old(self), i as int, i + 1),
            final(self).irq_enabled == old(self).irq_enabled && final(self).irq_address == old(self).irq_address,
    {
        if self.irq_enabled && i == self.irq_address {
            self.irq = true;
        }
        self.ram.set(i, v);
    }

    /// Reads the 16 bytes from `start`.
    pub fn read_block(&mut self, start: usize) -> (r: Vec<u8>)
        requires
            old(self).wf(),
            start + 16 <= SOUND_RAM_BYTES,
        ensures
            r@ == old(self).ram@.subrange(start as int, start + 16),
            *final(self) == (SoundRam { irq: spec_touched(*old(self), start as int, start + 16), ..*old(self) }),
    {
        if self.irq_enabled && start <= self.irq_address && self.irq_address < start + 16 {
            self.irq = true;
        }
        let mut out: Vec<u8> = Vec::new();
        let mut i: usize = 0;
        while i < 16
            invariant
                i <= 16,
                start + 16 <= SOUND_RAM_BYTES,
                self.ram@.len() == SOUND_RAM_BYTES,
                out@ == self.ram@.subrange(start as int, start + i),
            decreases 16 - i,
        {
            out.push(self.ram[start + i]);
            i = i + 1;
        }
        out
    }
}

/// Direction of an envelope phase.
#[derive(Clone, Copy, PartialEq, Eq, Structural, Debug)]
pub enum Direction {
    Increasing,
    Decreasing,
}

/// Whether an envelope phase moves linearly or exponentially.
#[derive(Clone, Copy, PartialEq, Eq, Structural, Debug)]
pub enum Mode {
    Linear,
    Exponential,
}

/// Phase of an ADSR envelope.
#[derive(Clone, Copy, PartialEq, Eq, Structural, Debug)]
pub enum AdsrPhase {
    Attack,
    Decay,
    Sustain,
    Release,
}

/// A voice's volume envelope: the ADSR register, the phase, the level and
/// the counter that paces updates.
#[derive(Clone, Copy)]
pub struct AdsrEnvelope {
    pub reg: u32,
    pub phase: AdsrPhase,
    pub level: u16,
    pub counter: u32,
    pub sustain_level: u16,
}

/// Bits `lo..lo + width` of `r`, where `mask` is `2^width - 1`.
pub open spec fn spec_field(r: u32, lo: u32, mask: u32) -> u8 {
    ((r >> lo) & mask) as u8
}

pub open spec fn spec_mode(bit: u8) -> Mode {
    if bit == 1 {
        Mode::Exponential
    } else {
        Mode::Linear
    }
}

pub open spec fn spec_direction(bit: u8) -> Direction {
    if bit == 1 {
        Direction::Decreasing
    } else {
        Direction::Increasing
    }
}

/// Direction, step, shift and mode of the current phase: attack from bits
/// 15-8, decay from bits 7-4, sustain from bits 31-22, release from bits
/// 21-16 of the ADSR register.
pub open spec fn spec_adsr_params(e: AdsrEnvelope) -> (Direction, u8, u8, Mode) {
    let r = e.reg;
    match e.phase {
        AdsrPhase::Attack => (Direction::Increasing, spec_field(r, 8, 3), spec_field(r, 10, 0x1f), spec_mode(spec_field(r, 15, 1))),
        AdsrPhase::Release => (Direction::Decreasing, 0u8, spec_field(r, 16, 0x1f), spec_mode(spec_field(r, 21, 1))),
        AdsrPhase::Sustain => (
            spec_direction(spec_field(r, 30, 1)),
            spec_field(r, 22, 3),
            spec_field(r, 24, 0x1f),
            spec_mode(spec_field(r, 31, 1)),
        ),
        AdsrPhase::Decay => (Direction::Decreasing, 0u8, spec_field(r, 4, 0xf), Mode::Exponential),
    }
}

/// The phase after the transition check: attack ends at level 7FFFh, decay
/// at the sustain level.
pub open spec fn spec_next_phase(phase: AdsrPhase, level: u16, sustain_level: u16) -> AdsrPhase {
    let p = if phase == AdsrPhase::Attack && level == 0x7fff { AdsrPhase::Decay } else { phase };
    if p == AdsrPhase::Decay && level <= sustain_level {
        AdsrPhase::Sustain
    } else {
        p
    }
}

/// How much the update counter goes down per tick: the envelope updates
/// every `2^(shift - 11)` ticks, four times slower in exponential increase
/// above level 6000h.
pub open spec fn spec_counter_decrement(dir: Direction, shift: u8, mode: Mode, level: u16) -> u32 {
    let k: u32 = if shift > 11 { (shift - 11) as u32 } else { 0 };
    let d = ENVELOPE_COUNTER_MAX >> k;
    if dir == Direction::Increasing && mode == Mode::Exponential && level > 0x6000 {
        d >> 2u32
    } else {
        d
    }
}

/// The level after one envelope update: a step of `7 - step` (or its
/// complement when decreasing), shifted up by `11 - shift`, scaled by the
/// level in exponential decrease, the result clamped to `0..=7FFFh`.
pub open spec fn spec_envelope_level(level: u16, dir: Direction, step: u8, shift: u8, mode: Mode) -> u16 {
    let s0 = 7 - step;
    let s1 = if dir == Direction::Decreasing { -s0 - 1 } else { s0 };
    let k: nat = if shift < 11 { (11 - shift) as nat } else { 0 };
    let s2 = s1 * spec_pow2(k);
    let s3 = if dir == Direction::Decreasing && mode == Mode::Exponential { spec_shr15(s2 * level) } else { s2 };
    spec_clamp(level + s3, 0, 0x7fff) as u16
}

/// The envelope after one tick.
pub open spec fn spec_adsr_clock(e: AdsrEnvelope) -> AdsrEnvelope {
    let (dir, step, shift, mode) = spec_adsr_params(e);
    let phase = spec_next_phase(e.phase, e.level, e.sustain_level);
    let dec = spec_counter_decrement(dir, shift, mode, e.level);
    let counter = if e.counter > dec { (e.counter - dec) as u32 } else { 0u32 };
    if counter == 0 {
        AdsrEnvelope {
            phase,
            counter: ENVELOPE_COUNTER_MAX,
            level: spec_envelope_level(e.level, dir, step, shift, mode),
            ..e
        }
    } else {
        AdsrEnvelope { phase, counter, ..e }
    }
}

fn field(r: u32, lo: u32, mask: u32) -> (f: u8)
    requires
        lo < 32,
        mask <= 0x1f,
    ensures
        f == spec_field(r, lo, mask),
{
    proof {
        crate::bitfacts::lemma_and_le_u32(r >> lo, mask);
    }
    ((r >> lo) & mask) as u8
}

fn mode_of(bit: u8) -> (m: Mode)
    ensures
        m == spec_mode(bit),
{
    if bit == 1 {
        Mode::Exponential
    } else {
        Mode::Linear
    }
}

proof fn lemma_field_bounds(r: u32, lo: u32, mask: u32)
    requires
        mask <= 0x1f,
    ensures
        spec_field(r, lo, mask) <= mask,
{
    crate::bitfacts::lemma_and_le_u32(r >> lo, mask);
}

impl AdsrEnvelope {
    /// Writes the low (`HIGH` 0) or high (`HIGH` 1) half of the ADSR
    /// register; the sustain level becomes `(N + 1) * 800h` for its bits 3-0.
    pub fn set_reg<const HIGH: usize>(&mut self, value: u16)
        requires
            HIGH <= 1,
        ensures
            final(self).reg == crate::spu_dsp::spec_write_half(old(self).reg, value, HIGH == 1),
            final(self).sustain_level == ((final(self).reg & 0xf) + 1) * 0x800,
            final(self).phase == old(self).phase && final(self).level == old(self).level && final(self).counter == old(self).counter,
    {
        crate::spu_dsp::write_half::<HIGH>(&mut self.reg, value);
        let n = self.reg & 0xf;
        proof {
            crate::bitfacts::lemma_and_le_u32(self.reg, 0xf);
        }
        self.sustain_level = ((n + 1) * 0x800) as u16;
    }

    /// Starts the attack from level 0.
    pub fn key_on(&mut self)
        ensures
            *final(self) == (AdsrEnvelope { level: 0, phase: AdsrPhase::Attack, ..*old(self) }),
    {
        self.level = 0;
        self.phase = AdsrPhase::Attack;
    }

    /// Starts the release.
    pub fn key_off(&mut self)
        ensures
            *final(self) == (AdsrEnvelope { phase: AdsrPhase::Release, ..*old(self) }),
    {
        self.phase = AdsrPhase::Release;
    }

    /// One envelope tick: the phase's parameters are read, the phase may
    /// move on, the counter runs down and, when it reaches 0, the level is
    /// updated.
    pub fn clock(&mut self)
        ensures
            *final(self) == spec_adsr_clock(*old(self)),
    {
        let r = self.reg;
        proof {
            lemma_field_bounds(r, 8, 3);
            lemma_field_bounds(r, 22, 3);
            lemma_field_bounds(r, 10, 0x1f);
            lemma_field_bounds(r, 16, 0x1f);
            lemma_field_bounds(r, 24, 0x1f);
            lemma_field_bounds(r, 4, 0xf);
        }
        let (dir, step, shift, mode) = match self.phase {
            AdsrPhase::Attack => (Direction::Increasing, field(r, 8, 3), field(r, 10, 0x1f), mode_of(field(r, 15, 1))),
            AdsrPhase::Release => (Direction::Decreasing, 0u8, field(r, 16, 0x1f), mode_of(field(r, 21, 1))),
            AdsrPhase::Sustain => {
                let d = if field(r, 30, 1) == 1 { Direction::Decreasing } else { Direction::Increasing };
                (d, field(r, 22, 3), field(r, 24, 0x1f), mode_of(field(r, 31, 1)))
            },
            AdsrPhase::Decay => (Direction::Decreasing, 0u8, field(r, 4, 0xf), Mode::Exponential),
        };
        self.check_fore_phase_transition();
        let k: u32 = if shift > 11 { (shift - 11) as u32 } else { 0 };
        let mut dec = ENVELOPE_COUNTER_MAX >> k;
        if dir == Direction::Increasing && mode == Mode::Exponential && self.level > 0x6000 {
            dec = dec >> 2;
        }
        self.counter = if self.counter > dec { self.counter - dec } else { 0 };
        if self.counter == 0 {
            self.counter = ENVELOPE_COUNTER_MAX;
            self.update_envelope(dir, step, shift, mode);
        }
    }

    /// Moves the level one step in `dir`.
    pub fn update_envelope(&mut self, direction: Direction, step: u8, shift: u8, mode: Mode)
        requires
            step <= 7,
        ensures
            *final(self) == (AdsrEnvelope { level: spec_envelope_level(old(self).level, direction, step, shift, mode), ..*old(self) }),
    {
        let mut s: i32 = (7 - step) as i32;
        if direction == Direction::Decreasing {
            s = -s - 1;
        }
        let k: u32 = if shift < 11 { (11 - shift) as u32 } else { 0 };
        let f = crate::spu_dsp::pow2(k);
        proof {
            lemma_pow2_bounds(k as nat);
        }
        assert(-0x4000 <= s * f <= 0x3800) by (nonlinear_arith)
            requires
                -8 <= s <= 7,
                1 <= f <= 0x800,
        ;
        s = s * f;
        let current_level: i32 = self.level as i32;
        if direction == Direction::Decreasing && mode == Mode::Exponential {
            assert(-0x4000_0000 <= s * current_level <= 0x3800_0000) by (nonlinear_arith)
                requires
                    -0x4000 <= s <= 0x3800,
                    0 <= current_level <= 0xffff,
            ;
            s = crate::spu_dsp::shr15_i32(s * current_level);
        }
        let v = current_level + s;
        self.level = if v < 0 {
            0
        } else if v > 0x7fff {
            0x7fff
        } else {
            v as u16
        };
    }

    /// Attack turns to decay at level 7FFFh; decay turns to sustain at the
    /// sustain level.
    pub fn check_fore_phase_transition(&mut self)
        ensures
            *final(self) == (AdsrEnvelope {
                phase: spec_next_phase(old(self).phase, old(self).level, old(self).sustain_level),
                ..*old(self)
            }),
    {
        if self.phase == AdsrPhase::Attack && self.level == 0x7fff {
            self.phase = AdsrPhase::Decay;
        }
        if self.phase == AdsrPhase::Decay && self.level <= self.sustain_level {
            self.phase = AdsrPhase::Sustain;
        }
    }
}

impl Default for AdsrEnvelope {
    fn default() -> (r: Self)
        ensures
            r == (AdsrEnvelope { reg: 0, phase: AdsrPhase::Attack, level: 0, counter: 0, sustain_level: 0 }),
    {
        AdsrEnvelope { reg: 0, phase: AdsrPhase::Attack, level: 0, counter: 0, sustain_level: 0 }
    }
}

/// Gaussian interpolation weights: four taps, 8000h standing for 1.
pub const GAUSSIAN_TABLE: [i32; 512] = [
    -0x001, -0x001, -0x001, -0x001, -0x001, -0x001, -0x001, -0x001, -0x001, -0x001, -0x001, -0x001,
    -0x001, -0x001, -0x001, -0x001, 0x0000, 0x0000, 0x0000, 0x0000, 0x0000, 0x0000, 0x0000, 0x0001,
    0x0001, 0x0001, 0x0001, 0x0002, 0x0002, 0x0002, 0x0003, 0x0003, 0x0003, 0x0004, 0x0004, 0x0005,
    0x0005, 0x0006, 0x0007, 0x0007, 0x0008, 0x0009, 0x0009, 0x000A, 0x000B, 0x000C, 0x000D, 0x000E,
    0x000F, 0x0010, 0x0011, 0x0012, 0x0013, 0x0015, 0x0016, 0x0018, 0x0019, 0x001B, 0x001C, 0x001E,
    0x0020, 0x0021, 0x0023, 0x0025, 0x0027, 0x0029, 0x002C, 0x002E, 0x0030, 0x0033, 0x0035, 0x0038,
    0x003A, 0x003D, 0x0040, 0x0043, 0x0046, 0x0049, 0x004D, 0x0050, 0x0054, 0x0057, 0x005B, 0x005F,
    0x0063, 0x0067, 0x006B, 0x006F, 0x0074, 0x0078, 0x007D, 0x0082, 0x0087, 0x008C, 0x0091, 0x0096,
    0x009C, 0x00A1, 0x00A7, 0x00AD, 0x00B3, 0x00BA, 0x00C0, 0x00C7, 0x00CD, 0x00D4, 0x00DB, 0x00E3,
    0x00EA, 0x00F2, 0x00FA, 0x0101, 0x010A, 0x0112, 0x011B, 0x0123, 0x012C, 0x0135, 0x013F, 0x0148,
    0x0152, 0x015C, 0x0166, 0x0171, 0x017B, 0x0186, 0x0191, 0x019C, 0x01A8, 0x01B4, 0x01C0, 0x01CC,
    0x01D9, 0x01E5, 0x01F2, 0x0200, 0x020D, 0x021B, 0x0229, 0x0237, 0x0246, 0x0255, 0x0264, 0x0273,
    0x0283, 0x0293, 0x02A3, 0x02B4, 0x02C4, 0x02D6, 0x02E7, 0x02F9, 0x030B, 0x031D, 0x0330, 0x0343,
    0x0356, 0x036A, 0x037E, 0x0392, 0x03A7, 0x03BC, 0x03D1, 0x03E7, 0x03FC, 0x0413, 0x042A, 0x0441,
    0x0458, 0x0470, 0x0488, 0x04A0, 0x04B9, 0x04D2, 0x04EC, 0x0506, 0x0520, 0x053B, 0x0556, 0x0572,
    0x058E, 0x05AA, 0x05C7, 0x05E4, 0x0601, 0x061F, 0x063E, 0x065C, 0x067C, 0x069B, 0x06BB, 0x06DC,
    0x06FD, 0x071E, 0x0740, 0x0762, 0x0784, 0x07A7, 0x07CB, 0x07EF, 0x0813, 0x0838, 0x085D, 0x0883,
    0x08A9, 0x08D0, 0x08F7, 0x091E, 0x0946, 0x096F, 0x0998, 0x09C1, 0x09EB, 0x0A16, 0x0A40, 0x0A6C,
    0x0A98, 0x0AC4, 0x0AF1, 0x0B1E, 0x0B4C, 0x0B7A, 0x0BA9, 0x0BD8, 0x0C07, 0x0C38, 0x0C68, 0x0C99,
    0x0CCB, 0x0CFD, 0x0D30, 0x0D63, 0x0D97, 0x0DCB, 0x0E00, 0x0E35, 0x0E6B, 0x0EA1, 0x0ED7, 0x0F0F,
    0x0F46, 0x0F7F, 0x0FB7, 0x0FF1, 0x102A, 0x1065, 0x109F, 0x10DB, 0x1116, 0x1153, 0x118F, 0x11CD,
    0x120B, 0x1249, 0x1288, 0x12C7, 0x1307, 0x1347, 0x1388, 0x13C9, 0x140B, 0x144D, 0x1490, 0x14D4,
    0x1517, 0x155C, 0x15A0, 0x15E6, 0x162C, 0x1672, 0x16B9, 0x1700, 0x1747, 0x1790, 0x17D8, 0x1821,
    0x186B, 0x18B5, 0x1900, 0x194B, 0x1996, 0x19E2, 0x1A2E, 0x1A7B, 0x1AC8, 0x1B16, 0x1B64, 0x1BB3,
    0x1C02, 0x1C51, 0x1CA1, 0x1CF1, 0x1D42, 0x1D93, 0x1DE5, 0x1E37, 0x1E89, 0x1EDC, 0x1F2F, 0x1F82,
    0x1FD6, 0x202A, 0x207F, 0x20D4, 0x2129, 0x217F, 0x21D5, 0x222C, 0x2282, 0x22DA, 0x2331, 0x2389,
    0x23E1, 0x2439, 0x2492, 0x24EB, 0x2545, 0x259E, 0x25F8, 0x2653, 0x26AD, 0x2708, 0x2763, 0x27BE,
    0x281A, 0x2876, 0x28D2, 0x292E, 0x298B, 0x29E7, 0x2A44, 0x2AA1, 0x2AFF, 0x2B5C, 0x2BBA, 0x2C18,
    0x2C76, 0x2CD4, 0x2D33, 0x2D91, 0x2DF0, 0x2E4F, 0x2EAE, 0x2F0D, 0x2F6C, 0x2FCC, 0x302B, 0x308B,
    0x30EA, 0x314A, 0x31AA, 0x3209, 0x3269, 0x32C9, 0x3329, 0x3389, 0x33E9, 0x3449, 0x34A9, 0x3509,
    0x3569, 0x35C9, 0x3629, 0x3689, 0x36E8, 0x3748, 0x37A8, 0x3807, 0x3867, 0x38C6, 0x3926, 0x3985,
    0x39E4, 0x3A43, 0x3AA2, 0x3B00, 0x3B5F, 0x3BBD, 0x3C1B, 0x3C79, 0x3CD7, 0x3D35, 0x3D92, 0x3DEF,
    0x3E4C, 0x3EA9, 0x3F05, 0x3F62, 0x3FBD, 0x4019, 0x4074, 0x40D0, 0x412A, 0x4185, 0x41DF, 0x4239,
    0x4292, 0x42EB, 0x4344, 0x439C, 0x43F4, 0x444C, 0x44A3, 0x44FA, 0x4550, 0x45A6, 0x45FC, 0x4651,
    0x46A6, 0x46FA, 0x474E, 0x47A1, 0x47F4, 0x4846, 0x4898, 0x48E9, 0x493A, 0x498A, 0x49D9, 0x4A29,
    0x4A77, 0x4AC5, 0x4B13, 0x4B5F, 0x4BAC, 0x4BF7, 0x4C42, 0x4C8D, 0x4CD7, 0x4D20, 0x4D68, 0x4DB0,
    0x4DF7, 0x4E3E, 0x4E84, 0x4EC9, 0x4F0E, 0x4F52, 0x4F95, 0x4FD7, 0x5019, 0x505A, 0x509A, 0x50DA,
    0x5118, 0x5156, 0x5194, 0x51D0, 0x520C, 0x5247, 0x5281, 0x52BA, 0x52F3, 0x532A, 0x5361, 0x5397,
    0x53CC, 0x5401, 0x5434, 0x5467, 0x5499, 0x54CA, 0x54FA, 0x5529, 0x5558, 0x5585, 0x55B2, 0x55DE,
    0x5609, 0x5632, 0x565B, 0x5684, 0x56AB, 0x56D1, 0x56F6, 0x571B, 0x573E, 0x5761, 0x5782, 0x57A3,
    0x57C3, 0x57E2, 0x57FF, 0x581C, 0x5838, 0x5853, 0x586D, 0x5886, 0x589E, 0x58B5, 0x58CB, 0x58E0,
    0x58F4, 0x5907, 0x5919, 0x592A, 0x593A, 0x5949, 0x5958, 0x5965, 0x5971, 0x597C, 0x5986, 0x598F,
    0x5997, 0x599E, 0x59A4, 0x59A9, 0x59AD, 0x59B0, 0x59B2, 0x59B3,
];

/// One of the 24 SPU voices: its registers, the ADPCM decoder state, the
/// last four samples for interpolation and its envelope.
#[derive(Clone, Copy)]
pub struct Voice {
    pub volume_left: i16,
    pub volume_right: i16,
    /// Sample rate: 1000h plays at 44100 Hz.
    pub adpcm_sample_rate: u16,
    pub adpcm_start_address: u16,
    pub envelope: AdsrEnvelope,
    pub current_address: usize,
    pub repeat_address: usize,
    pub pitch_counter: u16,
    pub decode_buffer: [i16; 28],
    pub key_on: bool,
    pub current_buffer_idx: usize,
    pub current_sample: i16,
    pub old_sample: i16,
    pub older_sample: i16,
    pub sample_history: [i16; 4],
    pub noise_mode: bool,
    pub reverb_mode: bool,
    pub modulation_enabled: bool,
    pub ignore_loop_address: bool,
    pub reached_loop_end: bool,
}

/// The voice after decoding the block at its current address: the 28
/// samples, the decoder history, and the loop flags of header byte 1 (bit 0
/// end: jump to the repeat address, and without bit 1 silence the voice;
/// bit 2 start: remember this block as the repeat address unless the game
/// set one). A block past the end of sound RAM is an error.
pub open spec fn spec_decode_next(o: Voice, ro: SoundRam, n: Voice, rn: SoundRam, r: Result<(), SpuError>) -> bool {
    let ca = o.current_address;
    if ca + 16 > SOUND_RAM_BYTES {
        r == Err::<(), SpuError>(SpuError::SampleAddress) && n == o && rn == ro
    } else {
        let block = ro.ram@.subrange(ca as int, ca + 16);
        let flags = block[1];
        let rep = if flags & 4 != 0 && !o.ignore_loop_address { ca } else { o.repeat_address };
        &&& r is Ok
        &&& rn == (SoundRam { irq: spec_touched(ro, ca as int, ca + 16), ..ro })
        &&& forall|k: int|
            0 <= k < 28 ==> n.decode_buffer[k] == #[trigger] spec_adpcm_history(block, o.old_sample, o.older_sample, (k + 1) as nat).0
        &&& (n.old_sample, n.older_sample) == spec_adpcm_history(block, o.old_sample, o.older_sample, 28)
        &&& n.repeat_address == rep
        &&& if flags & 1 != 0 {
            &&& n.reached_loop_end
            &&& n.current_address == rep
            &&& n.envelope == if flags & 2 == 0 {
                AdsrEnvelope { level: 0, phase: AdsrPhase::Release, ..o.envelope }
            } else {
                o.envelope
            }
        } else {
            n.reached_loop_end == o.reached_loop_end && n.current_address == ca + 16 && n.envelope == o.envelope
        }
        &&& n == (Voice {
            decode_buffer: n.decode_buffer,
            old_sample: n.old_sample,
            older_sample: n.older_sample,
            repeat_address: n.repeat_address,
            reached_loop_end: n.reached_loop_end,
            current_address: n.current_address,
            envelope: n.envelope,
            ..o
        })
    }
}

/// `n` is `v` with sample `s` pushed into the interpolation history.
pub open spec fn spec_push_history(v: Voice, n: Voice, s: i16) -> bool {
    &&& n == (Voice { sample_history: n.sample_history, ..v })
    &&& n.sample_history@ == seq![v.sample_history[1], v.sample_history[2], v.sample_history[3], s]
}

/// One sample step: the next decoded sample goes into the history, a new
/// block being decoded after the 28th.
pub open spec fn spec_advance(o: Voice, ro: SoundRam, n: Voice, rn: SoundRam, r: Result<(), SpuError>) -> bool {
    if o.current_buffer_idx + 1 == 28 {
        exists|m: Voice, rm: SoundRam|
            #[trigger] spec_decode_next(Voice { current_buffer_idx: 0, ..o }, ro, m, rm, r) && (r is Ok ==> spec_push_history(
                m,
                n,
                m.decode_buffer[0],
            ) && rn == rm)
    } else {
        r is Ok && rn == ro && spec_push_history(
            Voice { current_buffer_idx: (o.current_buffer_idx + 1) as usize, ..o },
            n,
            o.decode_buffer[o.current_buffer_idx + 1],
        )
    }
}

/// A run of sample steps: `vs` and `rs` hold the voice and the sound RAM
/// before each step and after the last; every step but the last succeeds,
/// and the last gives `r`.
pub open spec fn spec_trace(vs: Seq<Voice>, rs: Seq<SoundRam>, r: Result<(), SpuError>) -> bool {
    let n = vs.len() - 1;
    &&& vs.len() >= 1 && rs.len() == vs.len()
    &&& forall|i: int| 0 <= i < n - 1 ==> #[trigger] spec_advance(vs[i], rs[i], vs[i + 1], rs[i + 1], Ok(()))
    &&& n > 0 ==> spec_advance(vs[n - 1], rs[n - 1], vs[n], rs[n], r)
    &&& n == 0 ==> r is Ok
}

/// The pitch step of a voice: its sample rate, scaled by the previous
/// voice's output (as `(output + 8000h) / 8000h`) under pitch modulation,
/// at most 4000h.
pub open spec fn spec_pitch_step(v: Voice, prev: i16) -> u16 {
    let s = if v.modulation_enabled {
        spec_shr15((v.adpcm_sample_rate as i32).wrapping_mul((prev + 0x8000) as i32) as int) as u16
    } else {
        v.adpcm_sample_rate
    };
    if s > 0x4000 {
        0x4000
    } else {
        s
    }
}

/// The voice at the start of a tick: the pitch counter advanced by the
/// pitch step, less the whole samples it covers.
pub open spec fn spec_clock_start(v: Voice, prev: i16) -> Voice {
    Voice { pitch_counter: ((v.pitch_counter + spec_pitch_step(v, prev)) % 0x1000) as u16, ..v }
}

/// The number of samples a tick moves on.
pub open spec fn spec_clock_steps(v: Voice, prev: i16) -> nat {
    ((v.pitch_counter + spec_pitch_step(v, prev)) / 0x1000) as nat
}

/// One tick of voice `o` (sound RAM `ro`, the previous voice's output
/// `prev`) giving `n`, `rn` and `r`: the run of sample steps from the
/// advanced pitch counter, then, if it succeeded, the interpolated sample
/// and an envelope tick; a block past the end of sound RAM stops the run
/// there, leaving the voice and the sound RAM as that step found them.
pub open spec fn spec_voice_clock(o: Voice, ro: SoundRam, prev: i16, n: Voice, rn: SoundRam, r: Result<(), SpuError>) -> bool {
    exists|vs: Seq<Voice>, rs: Seq<SoundRam>|
        #[trigger] spec_trace(vs, rs, r) && vs[0] == spec_clock_start(o, prev) && rs[0] == ro && (r is Ok ==> vs.len()
            == spec_clock_steps(o, prev) + 1 && n == (Voice {
            current_sample: spec_interpolate(vs.last().sample_history@, vs.last().pitch_counter),
            envelope: spec_adsr_clock(vs.last().envelope),
            ..vs.last()
        }) && rn == rs.last()) && (r is Err ==> vs.len() <= spec_clock_steps(o, prev) + 1 && n == vs.last() && rn == rs.last())
}

/// The Gaussian interpolation of the four history samples at fraction
/// `(pitch_counter >> 4) & FFh`.
pub open spec fn spec_interpolate(h: Seq<i16>, pitch_counter: u16) -> i16 {
    let i = ((pitch_counter >> 4u16) & 0xff) as int;
    (spec_shr15(GAUSSIAN_TABLE[0xff - i] * h[0]) + spec_shr15(GAUSSIAN_TABLE[0x1ff - i] * h[1]) + spec_shr15(
        GAUSSIAN_TABLE[0x100 + i] * h[2],
    ) + spec_shr15(GAUSSIAN_TABLE[i] * h[3])) as i16
}

/// `n` is voice `o` keyed on, reading its first block from `ro` and leaving
/// the sound RAM as `rn`.
pub open spec fn spec_key_on_voice(o: Voice, ro: SoundRam, n: Voice, rn: SoundRam) -> bool {
    exists|m: Voice|
        #[trigger] spec_decode_next(spec_key_on_reset(o, m.sample_history), ro, m, rn, Ok(())) && m.sample_history@ == seq![
            0i16,
            0,
            0,
            0,
        ] && n == (Voice { envelope: AdsrEnvelope { level: 0, phase: AdsrPhase::Attack, ..m.envelope }, ..m })
}

/// The voice as key on resets it, before the first block is decoded, with
/// `history` as its (cleared) interpolation history.
pub open spec fn spec_key_on_reset(o: Voice, history: [i16; 4]) -> Voice {
    Voice {
        key_on: true,
        current_address: (o.adpcm_start_address as usize * 8) as usize,
        pitch_counter: 0,
        current_buffer_idx: 0,
        sample_history: history,
        old_sample: 0,
        older_sample: 0,
        ignore_loop_address: false,
        reached_loop_end: false,
        ..o
    }
}

impl Voice {
    pub open spec fn wf(&self) -> bool {
        self.current_buffer_idx < 28 && self.pitch_counter < 0x1000
    }

    /// Sets the start address (in units of 8 bytes).
    pub fn set_start_address(&mut self, address: u16)
        ensures
            *final(self) == (Voice { adpcm_start_address: address, ..*old(self) }),
    {
        self.adpcm_start_address = address;
    }

    /// Sets the repeat address (in units of 8 bytes); loop-start flags no
    /// longer move it until the next key on.
    pub fn set_repeat_address(&mut self, address: u16)
        ensures
            *final(self) == (Voice { repeat_address: (address as usize * 8) as usize, ignore_loop_address: true, ..*old(self) }),
    {
        self.repeat_address = (address as usize) * 8;
        self.ignore_loop_address = true;
    }

    /// Starts the voice: decoding restarts at the start address with a clear
    /// history, the first block is decoded and the envelope attacks from 0.
    pub fn key_on(&mut self, sound_ram: &mut SoundRam) -> (r: Result<(), SpuError>)
        requires
            old(sound_ram).wf(),
        ensures
            final(sound_ram).wf(),
            final(self).wf() || r is Err,
            r is Ok <==> old(self).adpcm_start_address as usize * 8 + 16 <= SOUND_RAM_BYTES,
            r is Ok ==> r == Ok::<(), SpuError>(()),
            r is Err ==> r == Err::<(), SpuError>(SpuError::SampleAddress),
            exists|m: Voice|
                #[trigger] spec_decode_next(spec_key_on_reset(*old(self), m.sample_history), *old(sound_ram), m, *final(sound_ram), r)
                    && m.sample_history@ == seq![0i16, 0, 0, 0] && (r is Ok ==> *final(self) == (Voice {
                    envelope: AdsrEnvelope { level: 0, phase: AdsrPhase::Attack, ..m.envelope },
                    ..m
                })),
    {
        self.key_on = true;
        self.current_address = (self.adpcm_start_address as usize) * 8;
        self.pitch_counter = 0;
        self.current_buffer_idx = 0;
        self.sample_history = [0i16; 4];
        self.old_sample = 0;
        self.older_sample = 0;
        self.ignore_loop_address = false;
        self.reached_loop_end = false;
        let ghost reset = *self;
        let ghost ro = *sound_ram;
        let r = self.decode_next_block(sound_ram);
        let ghost m = *self;
        if r.is_ok() {
            self.envelope.key_on();
        }
        assert(m.sample_history@ == seq![0i16, 0, 0, 0]);
        assert(spec_decode_next(reset, ro, m, *sound_ram, r));
        assert(reset == spec_key_on_reset(*old(self), m.sample_history));
        r
    }

    /// Starts the envelope's release.
    pub fn key_off(&mut self)
        ensures
            *final(self) == (Voice { envelope: AdsrEnvelope { phase: AdsrPhase::Release, ..old(self).envelope }, key_on: false, ..*old(self) }),
    {
        self.envelope.key_off();
        self.key_on = false;
    }

    /// Moves one sample on: the next decoded sample goes into the history,
    /// the next block being decoded after the 28th.
    fn advance_sample(&mut self, sound_ram: &mut SoundRam) -> (r: Result<(), SpuError>)
        requires
            old(self).current_buffer_idx < 28,
            old(sound_ram).wf(),
        ensures
            final(sound_ram).wf(),
            spec_advance(*old(self), *old(sound_ram), *final(self), *final(sound_ram), r),
            r is Ok ==> final(self).current_buffer_idx < 28 && r == Ok::<(), SpuError>(()),
    {
        let ghost o = *self;
        let ghost ro = *sound_ram;
        self.current_buffer_idx = self.current_buffer_idx + 1;
        if self.current_buffer_idx == 28 {
            self.current_buffer_idx = 0;
            let ghost z = *self;
            let r = self.decode_next_block(sound_ram);
            let ghost m = *self;
            if r.is_err() {
                assert(spec_decode_next(z, ro, m, *sound_ram, r));
                return r;
            }
            let s = self.decode_buffer[0];
            let h = self.sample_history;
            self.sample_history = [h[1], h[2], h[3], s];
            assert(spec_decode_next(z, ro, m, *sound_ram, r));
            assert(z == (Voice { current_buffer_idx: 0, ..o }));
            return r;
        }
        let s = self.decode_buffer[self.current_buffer_idx];
        let h = self.sample_history;
        self.sample_history = [h[1], h[2], h[3], s];
        Ok(())
    }

    /// One SPU tick of the voice: the pitch counter advances by the pitch
    /// step, one sample per 1000h, the output sample is interpolated from
    /// the last four, and the envelope ticks. An error leaves the voice in an
    /// unspecified state.
    pub fn clock(&mut self, sound_ram: &mut SoundRam, previous_voice_output: i16) -> (r: Result<(), SpuError>)
        requires
            old(self).wf(),
            old(sound_ram).wf(),
        ensures
            final(sound_ram).wf(),
            r is Ok ==> final(self).wf(),
            spec_voice_clock(*old(self), *old(sound_ram), previous_voice_output, *final(self), *final(sound_ram), r),
            r is Ok ==> r == Ok::<(), SpuError>(()),
            r is Err ==> r == Err::<(), SpuError>(SpuError::SampleAddress),
    {
        let mut step = self.adpcm_sample_rate;
        if self.modulation_enabled {
            let multiplier = previous_voice_output as i32 + 0x8000;
            let adjusted = crate::spu_dsp::shr15_i32((step as i32).wrapping_mul(multiplier));
            #[verifier::truncate]
            let t = adjusted as u16;
            step = t;
        }
        if step > 0x4000 {
            step = 0x4000;
        }
        let total = self.pitch_counter + step;
        let n = total / 0x1000;
        self.pitch_counter = total % 0x1000;
        let ghost start = *self;
        assert(start == spec_clock_start(*old(self), previous_voice_output));
        let ghost mut vs: Seq<Voice> = seq![*self];
        let ghost mut rs: Seq<SoundRam> = seq![*sound_ram];
        let mut j: u16 = 0;
        while j < n
            invariant
                0 <= j <= n,
                n == total / 0x1000,
                sound_ram.wf(),
                self.current_buffer_idx < 28,
                self.pitch_counter < 0x1000,
                vs.len() == j + 1,
                spec_trace(vs, rs, Ok(())),
                vs.last() == *self,
                rs.last() == *sound_ram,
                vs[0].pitch_counter == self.pitch_counter,
                vs[0] == start,
                start == spec_clock_start(*old(self), previous_voice_output),
                n == spec_clock_steps(*old(self), previous_voice_output),
                rs[0] == *old(sound_ram),
            decreases n - j,
        {
            let ghost m = *self;
            let ghost rm = *sound_ram;
            let r = self.advance_sample(sound_ram);
            proof {
                let ghost old_vs = vs;
                let ghost old_rs = rs;
                vs = vs.push(*self);
                rs = rs.push(*sound_ram);
                assert forall|i: int| 0 <= i < vs.len() - 2 implies #[trigger] spec_advance(
                    vs[i],
                    rs[i],
                    vs[i + 1],
                    rs[i + 1],
                    Ok(()),
                ) by {
                    assert(vs[i] == old_vs[i] && rs[i] == old_rs[i]);
                    assert(vs[i + 1] == old_vs[i + 1] && rs[i + 1] == old_rs[i + 1]);
                }
                assert(vs[vs.len() - 2] == m && rs[rs.len() - 2] == rm);
                assert(vs[vs.len() - 1] == *self && rs[rs.len() - 1] == *sound_ram);
                assert(spec_trace(vs, rs, r));
            }
            if r.is_err() {
                assert(vs[0] == start);
                return r;
            }
            proof {
                assert(spec_advance(m, rm, *self, *sound_ram, Ok(())));
                assert(spec_trace(vs, rs, Ok(())));
            }
            j = j + 1;
        }
        let pcv = self.pitch_counter;
        let i = ((pcv >> 4) & 0xff) as usize;
        proof {
            crate::bitfacts::lemma_and_le_u16(pcv >> 4u16, 0xff);
        }
        let h = self.sample_history;
        let t0 = gauss_tap(GAUSSIAN_TABLE[0xff - i], h[0]);
        let t1 = gauss_tap(GAUSSIAN_TABLE[0x1ff - i], h[1]);
        let t2 = gauss_tap(GAUSSIAN_TABLE[0x100 + i], h[2]);
        let t3 = gauss_tap(GAUSSIAN_TABLE[i], h[3]);
        let sum = t0 + t1 + t2 + t3;
        #[verifier::truncate]
        let cs = sum as i16;
        self.current_sample = cs;
        self.envelope.clock();
        assert(spec_trace(vs, rs, Ok(())));
        Ok(())
    }

    /// Decodes the 16-byte block at the current address and follows its loop
    /// flags.
    pub fn decode_next_block(&mut self, sound_ram: &mut SoundRam) -> (r: Result<(), SpuError>)
        requires
            old(sound_ram).wf(),
        ensures
            final(sound_ram).wf(),
            spec_decode_next(*old(self), *old(sound_ram), *final(self), *final(sound_ram), r),
            r is Ok ==> r == Ok::<(), SpuError>(()),
    {
        let ca = self.current_address;
        if ca > SOUND_RAM_BYTES - 16 {
            return Err(SpuError::SampleAddress);
        }
        let block = sound_ram.read_block(ca);
        let ghost o = *self;
        decode_adpcm_block(block.as_slice(), &mut self.decode_buffer, &mut self.old_sample, &mut self.older_sample);
        let flags = block[1];
        let loop_end = flags & 1 != 0;
        let loop_repeat = flags & 2 != 0;
        let loop_start = flags & 4 != 0;
        if loop_start && !self.ignore_loop_address {
            self.repeat_address = ca;
        }
        if loop_end {
            self.reached_loop_end = true;
            self.current_address = self.repeat_address;
            if !loop_repeat {
                self.envelope.level = 0;
                self.envelope.key_off();
            }
        } else {
            self.current_address = ca + 16;
        }
        Ok(())
    }
}

/// One interpolation tap: weight times sample, shifted down by 15.
fn gauss_tap(g: i32, s: i16) -> (r: i64)
    ensures
        r == spec_shr15(g * s),
        -0x1_0000_0000 <= r <= 0x1_0000_0000,
{
    assert(-0x4000_0000_0000 <= (g as i64) * (s as i64) <= 0x4000_0000_0000) by (nonlinear_arith)
        requires
            -0x8000_0000 <= g <= 0x7fff_ffff,
            -0x8000 <= s <= 0x7fff,
    ;
    let r = crate::spu_dsp::shr15((g as i64) * (s as i64));
    assert(-0x1_0000_0000 <= r <= 0x1_0000_0000) by (nonlinear_arith)
        requires
            r == ((g as i64) * (s as i64)) / 0x8000,
            -0x4000_0000_0000 <= (g as i64) * (s as i64) <= 0x4000_0000_0000,
    ;
    r
}

} // verus!
