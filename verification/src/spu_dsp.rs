use vstd::prelude::*;
use crate::renderer::spec_tdiv;

verus! {

/// Filter coefficients applied to the previous sample, by ADPCM filter.
pub const POS_ADPCM_TABLE: [i32; 5] = [0, 60, 115, 98, 122];

/// Filter coefficients applied to the sample before it, by ADPCM filter.
pub const NEG_ADPCM_TABLE: [i32; 5] = [0, 0, -52, -55, -60];

/// `x` limited to `lo..=hi`.
pub open spec fn spec_clamp(x: int, lo: int, hi: int) -> int {
    if x < lo {
        lo
    } else if x > hi {
        hi
    } else {
        x
    }
}

/// `2` to the power `n`.
pub open spec fn spec_pow2(n: nat) -> int
    decreases n,
{
    if n == 0 {
        1
    } else {
        2 * spec_pow2((n - 1) as nat)
    }
}

/// `x >> 15` on a signed value: division by 8000h rounding down.
pub open spec fn spec_shr15(x: int) -> int {
    x / 0x8000
}

/// The product of `a` and `b`, saturated to 32 bits, shifted down by 15: a
/// fixed-point multiplication where 8000h stands for 1.
pub open spec fn spec_mul16(a: i32, b: i32) -> int {
    spec_shr15(spec_clamp(a * b, i32::MIN as int, i32::MAX as int))
}

/// A sample scaled by a signed 16-bit volume (8000h standing for -1),
/// truncated to 16 bits.
pub open spec fn spec_apply_volume(sample: i16, volume: i16) -> i16 {
    spec_shr15(sample * volume) as i16
}

/// The low nibble of `v`, sign-extended.
pub open spec fn spec_signed4(v: u8) -> int {
    if v & 0xf >= 8 {
        (v & 0xf) - 16
    } else {
        (v & 0xf) as int
    }
}

/// `r` with its low (`HIGH` 0) or high (`HIGH` 1) halfword replaced by
/// `value`.
pub open spec fn spec_write_half(r: u32, value: u16, high: bool) -> u32 {
    if high {
        (r & 0xffff) | ((value as u32) << 16u32)
    } else {
        (r & 0xffff_0000) | (value as u32)
    }
}

pub proof fn lemma_pow2_mono(a: nat, b: nat)
    requires
        a <= b,
    ensures
        1 <= spec_pow2(a) <= spec_pow2(b),
    decreases b,
{
    if b > a {
        lemma_pow2_mono(a, (b - 1) as nat);
    } else if a > 0 {
        lemma_pow2_mono(0, (a - 1) as nat);
    }
}

pub proof fn lemma_pow2_bounds(n: nat)
    ensures
        spec_pow2(n) >= 1,
        n <= 30 ==> spec_pow2(n) <= 0x4000_0000,
        n <= 12 ==> spec_pow2(n) <= 0x1000,
        n <= 15 ==> spec_pow2(n) <= 0x8000,
        n <= 11 ==> spec_pow2(n) <= 0x800,
{
    reveal_with_fuel(spec_pow2, 31);
    lemma_pow2_mono(0, n);
    if n <= 30 {
        lemma_pow2_mono(n, 30);
    }
    if n <= 12 {
        lemma_pow2_mono(n, 12);
    }
    if n <= 15 {
        lemma_pow2_mono(n, 15);
    }
    if n <= 11 {
        lemma_pow2_mono(n, 11);
    }
}

/// `2` to the power `k`.
pub(crate) fn pow2(k: u32) -> (r: i32)
    requires
        k <= 30,
    ensures
        r == spec_pow2(k as nat),
{
    let mut r: i32 = 1;
    let mut i: u32 = 0;
    while i < k
        invariant
            i <= k <= 30,
            r == spec_pow2(i as nat),
        decreases k - i,
    {
        proof {
            lemma_pow2_mono(i as nat, 29);
            reveal_with_fuel(spec_pow2, 30);
        }
        r = r * 2;
        i = i + 1;
    }
    r
}

/// `x >> 15` on a signed value.
pub(crate) fn shr15(x: i64) -> (r: i64)
    ensures
        r == spec_shr15(x as int),
{
    if x >= 0 {
        x / 0x8000
    } else {
        let y = -(x as i128) - 1;
        let q = (y / 0x8000) as i64;
        assert(-q - 1 == x / 0x8000) by (nonlinear_arith)
            requires
                x < 0,
                y == -x - 1,
                q == y / 0x8000,
        ;
        -q - 1
    }
}

/// `x >> 15` on a signed 32-bit value.
pub(crate) fn shr15_i32(x: i32) -> (r: i32)
    ensures
        r == spec_shr15(x as int),
{
    let r = shr15(x as i64);
    assert(-0x1_0000 <= r < 0x1_0000) by (nonlinear_arith)
        requires
            r == x / 0x8000,
            -0x8000_0000 <= x <= 0x7fff_ffff,
    ;
    r as i32
}

/// Clamps `a` to the signed 16-bit range.
pub fn clamped_i16(a: i32) -> (r: i16)
    ensures
        r == spec_clamp(a as int, -0x8000, 0x7fff),
{
    if a < -0x8000 {
        -0x8000
    } else if a > 0x7fff {
        0x7fff
    } else {
        a as i16
    }
}

/// Fixed-point multiplication where 8000h stands for 1: the product
/// saturated to 32 bits, shifted down by 15.
pub fn mul_16(a: i32, b: i32) -> (r: i32)
    ensures
        r == spec_mul16(a, b),
        -0x1_0000 <= r < 0x1_0000,
{
    assert(i32::MIN * i32::MAX <= (a as i64) * (b as i64) <= i32::MIN * i32::MIN) by (nonlinear_arith)
        requires
            i32::MIN <= a <= i32::MAX,
            i32::MIN <= b <= i32::MAX,
    ;
    let p = (a as i64) * (b as i64);
    let s = if p < i32::MIN as i64 {
        i32::MIN as i64
    } else if p > i32::MAX as i64 {
        i32::MAX as i64
    } else {
        p
    };
    let r = shr15(s);
    assert(-0x1_0000 <= r < 0x1_0000) by (nonlinear_arith)
        requires
            r == s / 0x8000,
            -0x8000_0000 <= s <= 0x7fff_ffff,
    ;
    r as i32
}

/// Scales a sample by a signed 16-bit volume.
pub fn apply_volume(sample: i16, volume: i16) -> (r: i16)
    ensures
        r == spec_apply_volume(sample, volume),
{
    assert(-0x8000 * 0x8000 <= (sample as i64) * (volume as i64) <= 0x8000 * 0x8000) by (nonlinear_arith)
        requires
            -0x8000 <= sample <= 0x7fff,
            -0x8000 <= volume <= 0x7fff,
    ;
    let p = (sample as i64) * (volume as i64);
    let q = shr15(p);
    #[verifier::truncate]
    (q as i16)
}

/// The low nibble of `v`, sign-extended.
pub fn signed4bit(v: u8) -> (r: i32)
    ensures
        r == spec_signed4(v),
        -8 <= r <= 7,
{
    let n = v & 0xf;
    proof {
        crate::bitfacts::lemma_and_le_u32(v as u32, 0xf);
        assert((v & 0xf) as u32 == (v as u32) & 0xf) by (bit_vector);
    }
    if n >= 8 {
        n as i32 - 16
    } else {
        n as i32
    }
}

/// Replaces the low (`HIGH` 0) or high (`HIGH` 1) halfword of `r`.
pub fn write_half<const HIGH: usize>(r: &mut u32, value: u16)
    requires
        HIGH <= 1,
    ensures
        *final(r) == spec_write_half(*old(r), value, HIGH == 1),
{
    if HIGH == 1 {
        *r = (*r & 0xffff) | ((value as u32) << 16);
    } else {
        *r = (*r & 0xffff_0000) | (value as u32);
    }
}

/// The left shift of an ADPCM block: header bits 0-3 give `N` and the
/// samples go up by `12 - N`; `N` above 12 acts as 9.
pub open spec fn spec_adpcm_shift(header: u8) -> nat {
    let s = header & 0xf;
    (12 - (if s > 12 { 9 } else { s as int })) as nat
}

/// The filter of an ADPCM block: header bits 4-6, at most 4.
pub open spec fn spec_adpcm_filter(header: u8) -> int {
    let f = (header >> 4u8) & 7;
    if f > 4 {
        4
    } else {
        f as int
    }
}

/// Nibble `k` of the sample data of a block, low nibble first.
pub open spec fn spec_adpcm_nibble(block: Seq<u8>, k: int) -> u8 {
    if k % 2 == 0 {
        block[2 + k / 2] & 0xf
    } else {
        block[2 + k / 2] >> 4u8
    }
}

/// Sample `k` of a block, given the two samples decoded before it.
pub open spec fn spec_adpcm_sample(block: Seq<u8>, k: int, old: i16, older: i16) -> i16 {
    let f = spec_adpcm_filter(block[0]);
    let shifted = spec_signed4(spec_adpcm_nibble(block, k)) * spec_pow2(spec_adpcm_shift(block[0]));
    let filtered = shifted + spec_tdiv(POS_ADPCM_TABLE[f] * old + NEG_ADPCM_TABLE[f] * older + 32, 64);
    spec_clamp(filtered, -0x8000, 0x7fff) as i16
}

/// The last two samples after decoding the first `n` samples of a block.
pub open spec fn spec_adpcm_history(block: Seq<u8>, old: i16, older: i16, n: nat) -> (i16, i16)
    decreases n,
{
    if n == 0 {
        (old, older)
    } else {
        let (a, b) = spec_adpcm_history(block, old, older, (n - 1) as nat);
        (spec_adpcm_sample(block, n - 1, a, b), a)
    }
}

/// Truncating division by 64.
fn tdiv64(x: i32) -> (r: i32)
    ensures
        r == spec_tdiv(x as int, 64),
{
    if x >= 0 {
        x / 64
    } else {
        let y: i64 = -(x as i64);
        -((y / 64) as i32)
    }
}

/// Decodes a 16-byte ADPCM block into 28 samples: byte 0 holds the shift and
/// the filter, byte 1 the loop flags, the rest the 4-bit samples; each
/// sample is filtered with the two before it (`old_sample`, `older_sample`,
/// carried over from block to block).
pub fn decode_adpcm_block(block: &[u8], decoded: &mut [i16; 28], old_sample: &mut i16, older_sample: &mut i16)
    requires
        block@.len() >= 16,
    ensures
        forall|k: int|
            0 <= k < 28 ==> final(decoded)[k] == #[trigger] spec_adpcm_history(
                block@,
                *old(old_sample),
                *old(older_sample),
                (k + 1) as nat,
            ).0,
        (*final(old_sample), *final(older_sample)) == spec_adpcm_history(block@, *old(old_sample), *old(older_sample), 28),
{
    let header = block[0];
    let s = header & 0x0f;
    let shift: u32 = if s > 12 { 3 } else { (12 - s) as u32 };
    let fb = (header >> 4) & 0x7;
    let filter: usize = if fb > 4 { 4 } else { fb as usize };
    proof {
        assert((header >> 4u8) & 7 <= 7) by (bit_vector);
        assert(s <= 15) by (bit_vector)
            requires
                s == header & 0x0f,
        ;
    }
    let f0 = POS_ADPCM_TABLE[filter];
    let f1 = NEG_ADPCM_TABLE[filter];
    let factor = pow2(shift);
    proof {
        lemma_pow2_bounds(shift as nat);
    }
    let ghost o0 = *old_sample;
    let ghost o1 = *older_sample;
    let mut k: usize = 0;
    while k < 28
        invariant
            0 <= k <= 28,
            block@.len() >= 16,
            header == block@[0],
            shift == spec_adpcm_shift(header),
            filter == spec_adpcm_filter(header),
            f0 == POS_ADPCM_TABLE[filter as int],
            f1 == NEG_ADPCM_TABLE[filter as int],
            0 <= filter <= 4,
            factor == spec_pow2(shift as nat),
            1 <= factor <= 0x1000,
            (*old_sample, *older_sample) == spec_adpcm_history(block@, o0, o1, k as nat),
            forall|j: int|
                0 <= j < k ==> decoded[j] == #[trigger] spec_adpcm_history(block@, o0, o1, (j + 1) as nat).0,
        decreases 28 - k,
    {
        let byte = block[2 + k / 2];
        let nibble = if k % 2 == 0 { byte & 0xf } else { byte >> 4 };
        let raw = signed4bit(nibble);
        assert(-0x8000 <= raw * factor <= 0x7000) by (nonlinear_arith)
            requires
                -8 <= raw <= 7,
                1 <= factor <= 0x1000,
        ;
        let shifted = raw * factor;
        let old = *old_sample as i32;
        let older = *older_sample as i32;
        assert(-128 <= f0 <= 128 && -128 <= f1 <= 128) by {
            assert(0 <= filter <= 4);
            if filter == 0 {
            } else if filter == 1 {
            } else if filter == 2 {
            } else if filter == 3 {
            } else {
            }
        }
        assert(-0x80_0000 <= f0 * old + f1 * older <= 0x80_0000) by (nonlinear_arith)
            requires
                -128 <= f0 <= 128,
                -128 <= f1 <= 128,
                -0x8000 <= old <= 0x7fff,
                -0x8000 <= older <= 0x7fff,
        ;
        let filtered = shifted + tdiv64(f0 * old + f1 * older + 32);
        let v = clamped_i16(filtered);
        decoded[k] = v;
        *older_sample = *old_sample;
        *old_sample = v;
        k = k + 1;
    }
}

/// The noise generator: a 16-bit LFSR stepped at a rate set by SPUCNT.
pub struct NoiseGenerator {
    pub lfsr: u16,
    pub step: u8,
    pub shift: u8,
    pub timer: i32,
}

/// The LFSR after one step: bits 15, 12, 11 and 10 xor-ed, inverted, and
/// shifted in at the bottom.
pub open spec fn spec_lfsr_next(l: u16) -> u16 {
    let parity = ((l >> 15u16) & 1) ^ ((l >> 12u16) & 1) ^ ((l >> 11u16) & 1) ^ ((l >> 10u16) & 1) ^ 1;
    ((l << 1u16) | parity) as u16
}

/// One tick of the noise generator: the timer counts down by `step + 4`;
/// when it goes negative the LFSR steps and the timer is reloaded, by whole
/// periods, to a value above zero.
pub open spec fn spec_noise_clock(o: NoiseGenerator, n: NoiseGenerator) -> bool {
    let t = o.timer - (o.step + 4);
    let d = o.spec_period();
    &&& n.step == o.step && n.shift == o.shift
    &&& if t >= 0 {
        n.timer == t && n.lfsr == o.lfsr
    } else {
        &&& n.lfsr == spec_lfsr_next(o.lfsr)
        &&& 0 < n.timer <= d
        &&& (n.timer - t) % d == 0
    }
}

impl NoiseGenerator {
    pub open spec fn wf(&self) -> bool {
        self.step <= 3 && self.shift <= 15 && 0 <= self.timer <= 0x2_0000
    }

    /// The timer period for the current shift.
    pub open spec fn spec_period(&self) -> int {
        0x2_0000int / spec_pow2(self.shift as nat)
    }

    /// Counts the timer down by `step + 4`; when it goes negative the LFSR
    /// steps and the timer is reloaded, by whole periods, to a value above
    /// zero.
    pub fn clock(&mut self)
        requires
            old(self).wf(),
        ensures
            final(self).wf(),
            spec_noise_clock(*old(self), *final(self)),
    {
        self.timer = self.timer - (self.step as i32 + 4);
        if self.timer >= 0 {
            return;
        }
        self.clock_lfsr();
        let d = self.period();
        let ghost t = self.timer;
        let ghost st = self.step;
        let ghost sh = self.shift;
        let ghost l = self.lfsr;
        proof {
            vstd::arithmetic::div_mod::lemma_small_mod(0, d as nat);
        }
        while self.timer <= 0
            invariant
                self.step == st && self.shift == sh && self.lfsr == l,
                self.step <= 3 && self.shift <= 15,
                d == self.spec_period(),
                4 <= d <= 0x2_0000,
                t < 0,
                t <= self.timer <= d,
                (self.timer - t) % (d as int) == 0,
            decreases 0x2_0000 - self.timer,
        {
            let ghost before = self.timer;
            self.timer = self.timer + d;
            assert((self.timer - t) % (d as int) == 0) by {
                vstd::arithmetic::div_mod::lemma_mod_add_multiples_vanish((before - t) as int, d as int);
            }
        }
    }

    /// The timer period, `20000h >> shift`.
    fn period(&self) -> (r: i32)
        requires
            self.shift <= 15,
        ensures
            r == self.spec_period(),
            4 <= r <= 0x2_0000,
    {
        let p = pow2(self.shift as u32);
        proof {
            lemma_pow2_bounds(self.shift as nat);
            lemma_period_bounds(self.shift as nat);
        }
        0x2_0000 / p
    }

    /// Sets the rate from SPUCNT; a new shift restarts the timer at a full
    /// period.
    pub fn update_frequency(&mut self, step: u8, shift: u8)
        requires
            old(self).wf(),
            step <= 3,
            shift <= 15,
        ensures
            final(self).wf(),
            final(self).step == step && final(self).shift == shift && final(self).lfsr == old(self).lfsr,
            final(self).timer == if shift != old(self).shift { 0x2_0000int / spec_pow2(shift as nat) } else { old(self).timer as int },
    {
        if shift != self.shift {
            let p = pow2(shift as u32);
            proof {
                lemma_pow2_bounds(shift as nat);
                lemma_period_bounds(shift as nat);
            }
            self.timer = 0x2_0000 / p;
        }
        self.step = step;
        self.shift = shift;
    }

    /// Steps the LFSR.
    pub fn clock_lfsr(&mut self)
        ensures
            *final(self) == (NoiseGenerator { lfsr: spec_lfsr_next(old(self).lfsr), ..*old(self) }),
    {
        let l = self.lfsr;
        let parity = ((l >> 15) & 1) ^ ((l >> 12) & 1) ^ ((l >> 11) & 1) ^ ((l >> 10) & 1) ^ 1;
        self.lfsr = (l << 1) | parity;
    }
}

impl Default for NoiseGenerator {
    fn default() -> (r: Self)
        ensures
            r == (NoiseGenerator { lfsr: 0, step: 0, shift: 0, timer: 0 }),
    {
        NoiseGenerator { lfsr: 0, step: 0, shift: 0, timer: 0 }
    }
}

proof fn lemma_period_bounds(s: nat)
    requires
        s <= 15,
    ensures
        4 <= 0x2_0000int / spec_pow2(s) <= 0x2_0000,
    decreases s,
{
    lemma_pow2_bounds(s);
    if s > 0 {
        lemma_period_bounds((s - 1) as nat);
        let p = spec_pow2((s - 1) as nat);
        assert(spec_pow2(s) == 2 * p);
        assert(0x2_0000int / (2 * p) >= 4) by (nonlinear_arith)
            requires
                p >= 1,
                2 * p <= 0x8000,
        {
            assert(0x2_0000int / (2 * p) >= 0x2_0000int / 0x8000) by {
                vstd::arithmetic::div_mod::lemma_div_is_ordered_by_denominator(0x2_0000int, 2 * p, 0x8000);
            }
        }
        assert(0x2_0000int / (2 * p) <= 0x2_0000) by {
            vstd::arithmetic::div_mod::lemma_div_is_ordered_by_denominator(0x2_0000int, 1, 2 * p);
        }
    }
}

} // verus!
