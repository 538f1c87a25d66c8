use vstd::prelude::*;
use crate::spu_dsp::{clamped_i16, mul_16, spec_clamp, spec_mul16};
use crate::spu_voice::{SoundRam, SOUND_RAM_BYTES};

verus! {

/// The reverb unit: volumes, filter coefficients, the offsets of its
/// buffers in sound RAM (in bytes, relative to the moving buffer address)
/// and its last output.
pub struct Reverb {
    pub output_volume_left: i16,
    pub output_volume_right: i16,
    pub m_base: usize,
    pub d_apf1: usize,
    pub d_apf2: usize,
    pub v_iir: i32,
    pub v_comb1: i32,
    pub v_comb2: i32,
    pub v_comb3: i32,
    pub v_comb4: i32,
    pub v_wall: i32,
    pub v_apf1: i32,
    pub v_apf2: i32,
    pub ml_same: usize,
    pub mr_same: usize,
    pub ml_comb1: usize,
    pub mr_comb1: usize,
    pub ml_comb2: usize,
    pub mr_comb2: usize,
    pub dl_same: usize,
    pub dr_same: usize,
    pub ml_diff: usize,
    pub mr_diff: usize,
    pub ml_comb3: usize,
    pub mr_comb3: usize,
    pub ml_comb4: usize,
    pub mr_comb4: usize,
    pub dl_diff: usize,
    pub dr_diff: usize,
    pub ml_apf1: usize,
    pub mr_apf1: usize,
    pub ml_apf2: usize,
    pub mr_apf2: usize,
    pub input_volume_left: i16,
    pub input_volume_right: i16,
    pub half_tick: bool,
    pub current_buffer_address: usize,
    pub l_out: i32,
    pub r_out: i32,
}

/// The byte address of buffer offset `pos`: relative to the current buffer
/// address, wrapping within the work area from `m_base` to the end of sound
/// RAM, halfword aligned.
pub open spec fn spec_reverb_addr(m_base: usize, cba: usize, pos: usize) -> usize {
    ((m_base + (pos.wrapping_add(cba).wrapping_sub(m_base) % ((0x8_0000 - m_base) as usize))) as usize & 0x7_fffe) as usize
}

/// The signed halfword at `a`.
pub open spec fn spec_read16(mem: Seq<u8>, a: int) -> i32 {
    (mem[a] as u16 | ((mem[a + 1] as u16) << 8u16)) as i16 as i32
}

/// `mem` with the halfword `v` written at `a`, low byte first.
pub open spec fn spec_write16(mem: Seq<u8>, a: int, v: i16) -> Seq<u8> {
    mem.update(a, (v as u16) as u8).update(a + 1, ((v as u16) >> 8u16) as u8)
}

/// Whether an access to the halfword at `a` touches the IRQ address.
pub open spec fn spec_hits(s: SoundRam, a: int) -> bool {
    s.irq_enabled && (a == s.irq_address || a + 1 == s.irq_address)
}

/// `n` is `s` after an access to the halfword at `a`: same bytes, the IRQ
/// flag raised if the access touched the IRQ address.
pub open spec fn spec_read_access(s: SoundRam, n: SoundRam, a: int) -> bool {
    n == (SoundRam { irq: s.irq || spec_hits(s, a), ..s })
}

/// Reflection: `(input + [d]*vWALL - [m-2])*vIIR + [m-2]`.
pub open spec fn spec_reflect(r: Reverb, mem: Seq<u8>, input: i32, d: usize, m: usize) -> int {
    let prev = spec_read16(mem, spec_reverb_addr(r.m_base, r.current_buffer_address, spec_sat_sub2(m)) as int);
    let wall = spec_read16(mem, spec_reverb_addr(r.m_base, r.current_buffer_address, d) as int);
    spec_mul16((input + spec_mul16(wall, r.v_wall) - prev) as i32, r.v_iir) + prev
}

/// `m - 2`, stopping at 0.
pub open spec fn spec_sat_sub2(m: usize) -> usize {
    if m >= 2 {
        (m - 2) as usize
    } else {
        0
    }
}

/// The comb filter: `vCOMB1*[c1] + vCOMB2*[c2] + vCOMB3*[c3] + vCOMB4*[c4]`.
pub open spec fn spec_comb(r: Reverb, mem: Seq<u8>, c1: usize, c2: usize, c3: usize, c4: usize) -> int {
    let b = r.m_base;
    let c = r.current_buffer_address;
    spec_mul16(r.v_comb1, spec_read16(mem, spec_reverb_addr(b, c, c1) as int)) + spec_mul16(
        r.v_comb2,
        spec_read16(mem, spec_reverb_addr(b, c, c2) as int),
    ) + spec_mul16(r.v_comb3, spec_read16(mem, spec_reverb_addr(b, c, c3) as int)) + spec_mul16(
        r.v_comb4,
        spec_read16(mem, spec_reverb_addr(b, c, c4) as int),
    )
}

/// `mem` after a write of `v` (clamped) at buffer offset `pos`, if `write`.
pub open spec fn spec_store(r: Reverb, mem: Seq<u8>, pos: usize, v: i32, write: bool) -> Seq<u8> {
    if write {
        spec_write16(mem, spec_reverb_addr(r.m_base, r.current_buffer_address, pos) as int, spec_clamp(v as int, -0x8000, 0x7fff) as i16)
    } else {
        mem
    }
}

/// The value at buffer offset `pos`.
pub open spec fn spec_at(r: Reverb, mem: Seq<u8>, pos: usize) -> i32 {
    spec_read16(mem, spec_reverb_addr(r.m_base, r.current_buffer_address, pos) as int)
}

/// The reverb's result for one 22050 Hz step: the left and right output and
/// the sound RAM afterwards.
#[verifier::opaque]
pub open spec fn spec_reverb_step(r: Reverb, mem: Seq<u8>, mixed_l: i32, mixed_r: i32, write: bool) -> (i32, i32, Seq<u8>) {
    let l_in = spec_mul16(mixed_l, r.input_volume_left as i32) as i32;
    let r_in = spec_mul16(mixed_r, r.input_volume_right as i32) as i32;
    let l2l = spec_reflect(r, mem, l_in, r.dl_same, r.ml_same) as i32;
    let r2r = spec_reflect(r, mem, r_in, r.dr_same, r.mr_same) as i32;
    let m1 = spec_store(r, spec_store(r, mem, r.ml_same, l2l, write), r.mr_same, r2r, write);
    let r2l = spec_reflect(r, m1, l_in, r.dr_diff, r.ml_diff) as i32;
    let l2r = spec_reflect(r, m1, l_in, r.dl_diff, r.mr_diff) as i32;
    let m2 = spec_store(r, spec_store(r, m1, r.ml_diff, r2l, write), r.mr_diff, l2r, write);
    let lc = spec_comb(r, m2, r.ml_comb1, r.ml_comb2, r.ml_comb3, r.ml_comb4);
    let rc = spec_comb(r, m2, r.mr_comb1, r.mr_comb2, r.mr_comb3, r.mr_comb4);
    let la1 = r.ml_apf1.wrapping_sub(r.d_apf1);
    let ra1 = r.mr_apf1.wrapping_sub(r.d_apf1);
    let l1 = (lc - spec_mul16(r.v_apf1, spec_at(r, m2, la1))) as i32;
    let r1 = (rc - spec_mul16(r.v_apf1, spec_at(r, m2, ra1))) as i32;
    let m3 = spec_store(r, spec_store(r, m2, r.ml_apf1, l1, write), r.mr_apf1, r1, write);
    let l2 = (spec_mul16(l1, r.v_apf1) + spec_at(r, m3, la1)) as i32;
    let r2 = (spec_mul16(r1, r.v_apf1) + spec_at(r, m3, ra1)) as i32;
    let la2 = r.ml_apf2.wrapping_sub(r.d_apf2);
    let ra2 = r.mr_apf2.wrapping_sub(r.d_apf2);
    let l3 = (l2 - spec_mul16(r.v_apf2, spec_at(r, m3, la2))) as i32;
    let r3 = (r2 - spec_mul16(r.v_apf2, spec_at(r, m3, ra2))) as i32;
    let m4 = spec_store(r, spec_store(r, m3, r.ml_apf2, l3, write), r.mr_apf2, r3, write);
    let l4 = (spec_mul16(l3, r.v_apf2) + spec_at(r, m4, la2)) as i32;
    let r4 = (spec_mul16(r3, r.v_apf2) + spec_at(r, m4, ra2)) as i32;
    (spec_mul16(l4, r.output_volume_left as i32) as i32, spec_mul16(r4, r.output_volume_right as i32) as i32, m4)
}

/// The reverb after a call of `tick`: every other call does a step.
pub open spec fn spec_tick_reverb(r: Reverb, mem: Seq<u8>, mixed_l: i32, mixed_r: i32, write: bool) -> Reverb {
    if !r.half_tick {
        Reverb { half_tick: true, ..r }
    } else {
        Reverb {
            half_tick: false,
            l_out: spec_reverb_step(r, mem, mixed_l, mixed_r, write).0,
            r_out: spec_reverb_step(r, mem, mixed_l, mixed_r, write).1,
            current_buffer_address: spec_next_buffer_address(r.current_buffer_address, r.m_base),
            ..r
        }
    }
}

/// The sound RAM bytes after a call of `tick`.
pub open spec fn spec_tick_mem(r: Reverb, mem: Seq<u8>, mixed_l: i32, mixed_r: i32, write: bool) -> Seq<u8> {
    if !r.half_tick {
        mem
    } else {
        spec_reverb_step(r, mem, mixed_l, mixed_r, write).2
    }
}

/// The next buffer address: two bytes on, wrapping back to `m_base`.
pub open spec fn spec_next_buffer_address(cba: usize, m_base: usize) -> usize {
    let n = ((cba + 2) as usize & 0x7_fffe) as usize;
    if n > m_base {
        n
    } else {
        m_base
    }
}

/// Whether one of the accesses of a reverb step touches the IRQ address:
/// the reads of the reflection, comb and all-pass taps, and, when the
/// step writes, the eight buffer writes.
pub open spec fn spec_step_hits(r: Reverb, s: SoundRam, write: bool) -> bool {
    let b = r.m_base;
    let c = r.current_buffer_address;
    let h = |p: usize| spec_hits(s, spec_reverb_addr(b, c, p) as int);
    let la1 = r.ml_apf1.wrapping_sub(r.d_apf1);
    let ra1 = r.mr_apf1.wrapping_sub(r.d_apf1);
    let la2 = r.ml_apf2.wrapping_sub(r.d_apf2);
    let ra2 = r.mr_apf2.wrapping_sub(r.d_apf2);
    ||| h(r.dl_same) || h(spec_sat_sub2(r.ml_same)) || h(r.dr_same) || h(spec_sat_sub2(r.mr_same))
    ||| h(r.dr_diff) || h(spec_sat_sub2(r.ml_diff)) || h(r.dl_diff) || h(spec_sat_sub2(r.mr_diff))
    ||| h(r.ml_comb1) || h(r.ml_comb2) || h(r.ml_comb3) || h(r.ml_comb4)
    ||| h(r.mr_comb1) || h(r.mr_comb2) || h(r.mr_comb3) || h(r.mr_comb4)
    ||| h(la1) || h(ra1) || h(la2) || h(ra2)
    ||| write && (h(r.ml_same) || h(r.mr_same) || h(r.ml_diff) || h(r.mr_diff))
    ||| write && (h(r.ml_apf1) || h(r.mr_apf1) || h(r.ml_apf2) || h(r.mr_apf2))
}

impl Reverb {
    pub open spec fn wf(&self) -> bool {
        &&& self.m_base <= 0x7_fff8 && self.current_buffer_address <= 0x7_ffff
        &&& -0x1_0000 <= self.l_out < 0x1_0000 && -0x1_0000 <= self.r_out < 0x1_0000
    }

    /// Reflection: `(input + [d]*vWALL - [m-2])*vIIR + [m-2]`.
    fn reflect(&self, ram: &mut SoundRam, input: i32, d: usize, m: usize) -> (v: i32)
        requires
            self.wf(),
            old(ram).wf(),
            -0x1_0000 <= input < 0x1_0000,
        ensures
            final(ram).wf(),
            v == spec_reflect(*self, old(ram).ram@, input, d, m),
            *final(ram) == (SoundRam {
                irq: old(ram).irq || spec_hits(*old(ram), spec_reverb_addr(self.m_base, self.current_buffer_address, d) as int)
                    || spec_hits(*old(ram), spec_reverb_addr(self.m_base, self.current_buffer_address, spec_sat_sub2(m)) as int),
                ..*old(ram)
            }),
    {
        let wall = self.read_sample(ram, d);
        let m2 = if m >= 2 { m - 2 } else { 0 };
        let prev = self.read_sample(ram, m2);
        let t = mul_16(wall, self.v_wall);
        let v = mul_16(input + t - prev, self.v_iir) + prev;
        v
    }

    /// Comb filter over four taps.
    fn comb(&self, ram: &mut SoundRam, c1: usize, c2: usize, c3: usize, c4: usize) -> (v: i32)
        requires
            self.wf(),
            old(ram).wf(),
        ensures
            final(ram).wf(),
            v == spec_comb(*self, old(ram).ram@, c1, c2, c3, c4),
            -0x4_0000 <= v < 0x4_0000,
            *final(ram) == (SoundRam {
                irq: old(ram).irq || spec_hits(*old(ram), spec_reverb_addr(self.m_base, self.current_buffer_address, c1) as int)
                    || spec_hits(*old(ram), spec_reverb_addr(self.m_base, self.current_buffer_address, c2) as int)
                    || spec_hits(*old(ram), spec_reverb_addr(self.m_base, self.current_buffer_address, c3) as int)
                    || spec_hits(*old(ram), spec_reverb_addr(self.m_base, self.current_buffer_address, c4) as int),
                ..*old(ram)
            }),
    {
        let a = mul_16(self.v_comb1, self.read_sample(ram, c1));
        let b = mul_16(self.v_comb2, self.read_sample(ram, c2));
        let c = mul_16(self.v_comb3, self.read_sample(ram, c3));
        let d = mul_16(self.v_comb4, self.read_sample(ram, c4));
        a + b + c + d
    }

    /// Writes `v` at `pos` if `write`.
    fn store_if(&self, ram: &mut SoundRam, pos: usize, v: i32, write: bool)
        requires
            self.wf(),
            old(ram).wf(),
        ensures
            final(ram).wf(),
            final(ram).ram@ == spec_store(*self, old(ram).ram@, pos, v, write),
            final(ram).irq == (old(ram).irq || (write && spec_hits(*old(ram), spec_reverb_addr(self.m_base, self.current_buffer_address, pos) as int))),
            final(ram).irq_enabled == old(ram).irq_enabled && final(ram).irq_address == old(ram).irq_address,
    {
        if write {
            self.write_sample(ram, pos, v);
        }
    }

    /// One reverb step, run every other call (22050 Hz): same-side and
    /// cross reflections, the comb filter and two all-pass filters, with the
    /// buffer writes done only if `write_to_ram`; then the buffer address
    /// moves on.
    pub fn tick(&mut self, mixed: [i32; 2], ram: &mut SoundRam, write_to_ram: bool)
        requires
            old(self).wf(),
            old(ram).wf(),
        ensures
            final(self).wf(),
            final(ram).wf(),
            *final(self) == spec_tick_reverb(*old(self), old(ram).ram@, mixed[0], mixed[1], write_to_ram),
            final(ram).ram@ == spec_tick_mem(*old(self), old(ram).ram@, mixed[0], mixed[1], write_to_ram),
            final(ram).irq == (old(ram).irq || (old(self).half_tick && spec_step_hits(*old(self), *old(ram), write_to_ram))),
            final(ram).irq_enabled == old(ram).irq_enabled && final(ram).irq_address == old(ram).irq_address,
    {
        self.half_tick = !self.half_tick;
        if self.half_tick {
            return;
        }
        self.step(mixed[0], mixed[1], ram, write_to_ram);
        proof {
            reveal(spec_reverb_step);
        }
    }

    /// The reverb step proper.
    fn step(&mut self, mixed_l: i32, mixed_r: i32, ram: &mut SoundRam, write_to_ram: bool)
        requires
            old(self).wf(),
            old(ram).wf(),
        ensures
            final(self).wf(),
            final(ram).wf(),
            ({
                let (l, r, mem) = spec_reverb_step(*old(self), old(ram).ram@, mixed_l, mixed_r, write_to_ram);
                &&& *final(self) == (Reverb {
                    l_out: l,
                    r_out: r,
                    current_buffer_address: spec_next_buffer_address(old(self).current_buffer_address, old(self).m_base),
                    ..*old(self)
                })
                &&& final(ram).ram@ == mem
                &&& final(ram).irq == (old(ram).irq || spec_step_hits(*old(self), *old(ram), write_to_ram))
                &&& final(ram).irq_enabled == old(ram).irq_enabled && final(ram).irq_address == old(ram).irq_address
            }),
    {
        proof {
            reveal(spec_reverb_step);
        }
        let w = write_to_ram;
        let l_in = mul_16(mixed_l, self.input_volume_left as i32);
        let r_in = mul_16(mixed_r, self.input_volume_right as i32);
        let l2l = self.reflect(ram, l_in, self.dl_same, self.ml_same);
        let r2r = self.reflect(ram, r_in, self.dr_same, self.mr_same);
        self.store_if(ram, self.ml_same, l2l, w);
        self.store_if(ram, self.mr_same, r2r, w);
        let r2l = self.reflect(ram, l_in, self.dr_diff, self.ml_diff);
        let l2r = self.reflect(ram, l_in, self.dl_diff, self.mr_diff);
        self.store_if(ram, self.ml_diff, r2l, w);
        self.store_if(ram, self.mr_diff, l2r, w);
        let lc = self.comb(ram, self.ml_comb1, self.ml_comb2, self.ml_comb3, self.ml_comb4);
        let rc = self.comb(ram, self.mr_comb1, self.mr_comb2, self.mr_comb3, self.mr_comb4);
        let la1 = self.ml_apf1.wrapping_sub(self.d_apf1);
        let ra1 = self.mr_apf1.wrapping_sub(self.d_apf1);
        let l1 = lc - mul_16(self.v_apf1, self.read_sample(ram, la1));
        let r1 = rc - mul_16(self.v_apf1, self.read_sample(ram, ra1));
        self.store_if(ram, self.ml_apf1, l1, w);
        self.store_if(ram, self.mr_apf1, r1, w);
        let l2 = mul_16(l1, self.v_apf1) + self.read_sample(ram, la1);
        let r2 = mul_16(r1, self.v_apf1) + self.read_sample(ram, ra1);
        let la2 = self.ml_apf2.wrapping_sub(self.d_apf2);
        let ra2 = self.mr_apf2.wrapping_sub(self.d_apf2);
        let l3 = l2 - mul_16(self.v_apf2, self.read_sample(ram, la2));
        let r3 = r2 - mul_16(self.v_apf2, self.read_sample(ram, ra2));
        self.store_if(ram, self.ml_apf2, l3, w);
        self.store_if(ram, self.mr_apf2, r3, w);
        let l4 = mul_16(l3, self.v_apf2) + self.read_sample(ram, la2);
        let r4 = mul_16(r3, self.v_apf2) + self.read_sample(ram, ra2);
        self.l_out = mul_16(l4, self.output_volume_left as i32);
        self.r_out = mul_16(r4, self.output_volume_right as i32);
        let n = (self.current_buffer_address + 2) & 0x7_fffe;
        proof {
            crate::bitfacts::lemma_and_le_usize((self.current_buffer_address + 2) as usize, 0x7_fffe);
        }
        self.current_buffer_address = if n > self.m_base { n } else { self.m_base };
    }

    /// Sets the work area's start (in units of 8 bytes); the buffer address
    /// restarts there.
    pub fn set_base_address(&mut self, address: u16)
        ensures
            *final(self) == (Reverb {
                m_base: (address as usize * 8) as usize,
                current_buffer_address: (address as usize * 8) as usize,
                ..*old(self)
            }),
    {
        self.m_base = (address as usize) * 8;
        self.current_buffer_address = self.m_base;
    }

    fn addr(&self, pos: usize) -> (a: usize)
        requires
            self.wf(),
        ensures
            a == spec_reverb_addr(self.m_base, self.current_buffer_address, pos),
            a + 1 < SOUND_RAM_BYTES,
    {
        let base = self.m_base;
        let offs = pos.wrapping_add(self.current_buffer_address).wrapping_sub(base) % (0x8_0000 - base);
        let sum = base + offs;
        let a = sum & 0x7_fffe;
        proof {
            crate::bitfacts::lemma_and_le_usize(sum, 0x7_fffe);
        }
        a
    }

    /// Reads the signed halfword at buffer offset `pos`.
    pub fn read_sample(&self, ram: &mut SoundRam, pos: usize) -> (v: i32)
        requires
            self.wf(),
            old(ram).wf(),
        ensures
            v == spec_at(*self, old(ram).ram@, pos),
            spec_read_access(*old(ram), *final(ram), spec_reverb_addr(self.m_base, self.current_buffer_address, pos) as int),
    {
        let a = self.addr(pos);
        let lo = ram.read(a);
        let hi = ram.read(a + 1);
        let v = (lo as u16 | ((hi as u16) << 8)) as i16 as i32;
        v
    }

    /// Writes `val`, clamped to 16 bits, at buffer offset `pos`.
    pub fn write_sample(&self, ram: &mut SoundRam, pos: usize, val: i32)
        requires
            self.wf(),
            old(ram).wf(),
        ensures
            final(ram).wf(),
            final(ram).ram@ == spec_store(*self, old(ram).ram@, pos, val, true),
            final(ram).irq == (old(ram).irq || spec_hits(*old(ram), spec_reverb_addr(self.m_base, self.current_buffer_address, pos) as int)),
            final(ram).irq_enabled == old(ram).irq_enabled && final(ram).irq_address == old(ram).irq_address,
    {
        let a = self.addr(pos);
        let v = clamped_i16(val) as u16;
        ram.write(a, v as u8);
        ram.write(a + 1, (v >> 8) as u8);
    }
}

impl Default for Reverb {
    fn default() -> (r: Self)
        ensures
            r.wf(),
            r.m_base == 0 && r.current_buffer_address == 0 && !r.half_tick && r.l_out == 0 && r.r_out == 0,
    {
        Reverb {
            output_volume_left: 0,
            output_volume_right: 0,
            m_base: 0,
            d_apf1: 0,
            d_apf2: 0,
            v_iir: 0,
            v_comb1: 0,
            v_comb2: 0,
            v_comb3: 0,
            v_comb4: 0,
            v_wall: 0,
            v_apf1: 0,
            v_apf2: 0,
            ml_same: 0,
            mr_same: 0,
            ml_comb1: 0,
            mr_comb1: 0,
            ml_comb2: 0,
            mr_comb2: 0,
            dl_same: 0,
            dr_same: 0,
            ml_diff: 0,
            mr_diff: 0,
            ml_comb3: 0,
            mr_comb3: 0,
            ml_comb4: 0,
            mr_comb4: 0,
            dl_diff: 0,
            dr_diff: 0,
            ml_apf1: 0,
            mr_apf1: 0,
            ml_apf2: 0,
            mr_apf2: 0,
            input_volume_left: 0,
            input_volume_right: 0,
            half_tick: false,
            current_buffer_address: 0,
            l_out: 0,
            r_out: 0,
        }
    }
}

} // verus!
