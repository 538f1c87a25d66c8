//! Properties that span several operations of the machine.
use vstd::prelude::*;
use arrayvec::ArrayVec;
use crate::addressable::AccessWidth;
use crate::arrayvec_specs::{bytes16, bytes8};
use crate::bytes::lemma_read_after_write;
use crate::cdrom::ResponseType;
use crate::cdrom_controller::{spec_cdrom_load, spec_from_bcd, spec_process_response, spec_to_bcd, CDRom, CdRomError};
use crate::colour::{spec_5bit_to_8bit, spec_colour_from_pixel, spec_colour_pixel};
use crate::cpu::{spec_imm5, spec_op_sra, spec_op_srav, spec_rd, spec_rs, spec_rt, Cpu, Instruction};
use crate::colour::spec_blend_channel;
use crate::mdec::{spec_ac_run, PADDING, ZAG_ZIG};
use crate::spu_voice::{spec_interpolate, GAUSSIAN_TABLE};
use crate::spu_dsp::spec_shr15;
use crate::cdrom::SECTOR_SIZE;
use crate::cdrom_controller::spec_command;
use crate::renderer::{spec_addr, spec_copy_in, spec_readback_word, spec_set_px, spec_vram_hw, spec_word_half, spec_xfer_pos, VRAM_BYTES};
use crate::spu_reverb::{spec_at, spec_read16, spec_reverb_addr, spec_store, spec_write16, Reverb};
use crate::spu_voice::SOUND_RAM_BYTES;
use crate::spu::{spec_bit16, spec_voice_bits, spec_voices_set};
use crate::spu_voice::{spec_envelope_level, Direction, Mode, Voice};
use crate::spu_dsp::{lemma_pow2_bounds, spec_clamp, spec_pow2};
use crate::spu_dsp::{spec_adpcm_filter, spec_adpcm_history, spec_adpcm_nibble, spec_adpcm_sample, spec_adpcm_shift};
use crate::cpu_mem::{spec_load_op, spec_store_op};
use crate::memory_bus::{
    spec_aligned, spec_load_post, spec_load_region, spec_mask_region, spec_store_post, spec_store_region, BusError,
    MemoryBus, Region,
};
use crate::ram::RAM_BYTES;
use crate::scheduler::{spec_same_event, spec_unscheduled, Event, Task};

verus! {

/// A bus load from RAM gives back what a bus store of the same width at the
/// same address wrote, truncated to that width; the store succeeds.
pub proof fn law_ram_load_after_store(
    o: MemoryBus,
    n: MemoryBus,
    n2: MemoryBus,
    addr: u32,
    w: AccessWidth,
    v: u32,
    rs: Result<(), BusError>,
    rl: Result<u32, BusError>,
)
    requires
        o.wf(),
        spec_store_region(spec_mask_region(addr)).0 == Region::Ram,
        spec_aligned(spec_mask_region(addr), w),
        spec_store_post(o, n, addr, w, v, rs),
        spec_load_post(n, n2, addr, w, rl),
    ensures
        rs is Ok,
        rl == Ok::<u32, BusError>(v & w.spec_mask()),
{
    let a = spec_mask_region(addr);
    assert(spec_load_region(a).0 == Region::Ram);
    assert(w.spec_bytes() == 1 || w.spec_bytes() == 2 || w.spec_bytes() == 4);
    assert((a as int) % (w.spec_bytes() as int) == 0);
    crate::bitfacts::lemma_offset_fits(a as int, 0, RAM_BYTES as int, w.spec_bytes() as int);
    lemma_read_after_write(o.ram.data@, a as int, w, v);
}

/// A CPU load (zero-extended) from RAM puts into the pending load what a
/// CPU store of the same width at the same address wrote, while the cache
/// is not isolated.
pub proof fn law_cpu_load_after_store(
    o: Cpu,
    n: Cpu,
    n2: Cpu,
    addr: u32,
    w: AccessWidth,
    v: u32,
    t: u32,
    rs: Result<(), crate::cpu::CpuError>,
    rl: Result<(), crate::cpu::CpuError>,
)
    requires
        o.memory_bus.wf(),
        o.sr & 0x1_0000 == 0,
        spec_store_region(spec_mask_region(addr)).0 == Region::Ram,
        spec_aligned(spec_mask_region(addr), w),
        spec_store_op(o, n, addr, w, v, rs),
        spec_load_op(n, n2, addr, w, false, t, rl),
    ensures
        rs is Ok,
        rl is Ok,
        n2.load == (t, v & w.spec_mask()),
{
    let lr = choose|lr: Result<u32, BusError>|
        #[trigger] spec_load_post(n.memory_bus, n2.memory_bus, addr, w, lr) && match lr {
            Ok(x) => {
                &&& rl is Ok
                &&& crate::cpu::spec_chain_post(n, t, crate::cpu_mem::spec_extend(x, w, false), n2.regs@, n2.load)
                &&& n2 == (Cpu { regs: n2.regs, load: n2.load, memory_bus: n2.memory_bus, ..n })
            },
            Err(e) => rl == Err::<(), crate::cpu::CpuError>(crate::cpu::CpuError::Bus(e)) && n2 == (Cpu {
                memory_bus: n2.memory_bus,
                ..n
            }),
        };
    law_ram_load_after_store(o.memory_bus, n.memory_bus, n2.memory_bus, addr, w, v, crate::cpu_mem::spec_bus_part(rs), lr);
}

/// Two BCD digits read back the number they were made from, for every
/// number up to 99; no larger number has them.
pub proof fn law_bcd_round_trip(x: u8)
    ensures
        x <= 99 ==> (spec_to_bcd(x) matches Some(b) && spec_from_bcd(b) == Some(x)),
        x > 99 ==> spec_to_bcd(x) is None,
{
    if x <= 99 {
        let t = (x / 10) as u8;
        let u = (x % 10) as u8;
        let b = (t << 4u8) | u;
        assert(b & 0xf == u && b >> 4u8 == t) by (bit_vector)
            requires
                t <= 9,
                u <= 9,
                b == (t << 4u8) | u,
        ;
    }
}

/// Once an event is unscheduled, no task of it is left pending, and every
/// other task stays, in order.
pub proof fn law_unschedule_removes(s: Seq<Task>, e: Event)
    ensures
        forall|i: int| 0 <= i < spec_unscheduled(s, e).len() ==> !spec_same_event(#[trigger] spec_unscheduled(s, e)[i].event, e),
        forall|i: int| 0 <= i < s.len() && !spec_same_event(s[i].event, e) ==> spec_unscheduled(s, e).contains(#[trigger] s[i]),
{
    broadcast use vstd::seq_lib::group_filter_ensures;
    let p = |t: Task| !spec_same_event(t.event, e);
    assert forall|i: int| 0 <= i < spec_unscheduled(s, e).len() implies !spec_same_event(
        #[trigger] spec_unscheduled(s, e)[i].event,
        e,
    ) by {
        assert(p(s.filter(p)[i]));
    }
    assert forall|i: int| 0 <= i < s.len() && !spec_same_event(s[i].event, e) implies spec_unscheduled(s, e).contains(
        #[trigger] s[i],
    ) by {
        assert(s.contains(s[i]));
        assert(p(s[i]));
    }
}

/// After an INT3 response with bytes falls due, the first read of the
/// result register gives its first byte.
pub proof fn law_response_read_back(o: MemoryBus, n: MemoryBus, x: ArrayVec<u8, 8>, n2: CDRom, r: Result<u32, CdRomError>)
    requires
        spec_process_response(o, n, ResponseType::INT3(x), Ok(())),
        bytes8(x).len() > 0,
        spec_cdrom_load(n.cdrom, n2, 1, AccessWidth::Byte, r),
    ensures
        r == Ok::<u32, CdRomError>(bytes8(x)[0] as u32),
        bytes16(n2.results) == bytes8(x).drop_first(),
{
}

/// A 5-bit channel scaled to 8 bits keeps its value in its top five bits.
proof fn lemma_5bit_to_8bit_top(c: u16)
    requires
        c < 32,
    ensures
        spec_5bit_to_8bit(c) >> 3u8 == c,
{
    let q: int = (c * 255 + 15) / 31;
    assert(8 * c <= q < 8 * c + 8) by (nonlinear_arith)
        requires
            q == (c * 255 + 15) / 31,
            0 <= c < 32,
    ;
    let x = spec_5bit_to_8bit(c);
    assert(x == q);
    assert(x >> 3u8 == x / 8) by (bit_vector);
}

/// A VRAM pixel, read as a colour (each 5-bit channel widened to 8 bits)
/// and stored back, gives the same two bytes.
pub proof fn law_pixel_round_trip(msb: u8, lsb: u8)
    ensures
        ({
            let c = spec_colour_from_pixel((((msb as u16) << 8u16) | (lsb as u16)) as u16);
            (spec_colour_pixel(c) & 0xff) as u8 == lsb && (spec_colour_pixel(c) >> 8u16) as u8 == msb
        }),
{
    let p = (((msb as u16) << 8u16) | (lsb as u16)) as u16;
    let c = spec_colour_from_pixel(p);
    assert(p & 0x1f < 32 && (p >> 5u16) & 0x1f < 32 && (p >> 10u16) & 0x1f < 32 && (p >> 15u16) < 2) by (bit_vector);
    lemma_5bit_to_8bit_top(p & 0x1f);
    lemma_5bit_to_8bit_top((p >> 5u16) & 0x1f);
    lemma_5bit_to_8bit_top((p >> 10u16) & 0x1f);
    let (r, g, b, m) = (c.r, c.g, c.b, c.m);
    assert((((r >> 3) as u16) | (((g >> 3) as u16) << 5u16) | (((b >> 3) as u16) << 10u16) | ((m as u16) << 15u16))
        == p && (p & 0xff) as u8 == lsb && (p >> 8u16) as u8 == msb) by (bit_vector)
        requires
            (r >> 3u8) as u16 == p & 0x1f,
            (g >> 3u8) as u16 == (p >> 5u16) & 0x1f,
            (b >> 3u8) as u16 == (p >> 10u16) & 0x1f,
            m as u16 == p >> 15u16,
            p == (((msb as u16) << 8u16) | (lsb as u16)) as u16,
    ;
}

/// Two ADPCM block headers that decode alike: a shift of 13 to 15 acts as
/// 9, a filter of 5 to 7 as 4.
pub open spec fn spec_same_decoding(h1: u8, h2: u8) -> bool {
    ||| (13 <= h1 & 0xf <= 15 && h2 & 0xf == 9 && (h1 >> 4u8) & 7 == (h2 >> 4u8) & 7)
    ||| (5 <= (h1 >> 4u8) & 7 <= 7 && (h2 >> 4u8) & 7 == 4 && h1 & 0xf == h2 & 0xf)
}

/// Blocks that differ only in a header of the same decoding give the same
/// first `n` samples and decoder history.
proof fn lemma_adpcm_same_history(b1: Seq<u8>, b2: Seq<u8>, old: i16, older: i16, n: nat)
    requires
        b1.len() >= 16,
        b2.len() == b1.len(),
        forall|i: int| 1 <= i < b1.len() ==> b1[i] == b2[i],
        spec_adpcm_shift(b1[0]) == spec_adpcm_shift(b2[0]),
        spec_adpcm_filter(b1[0]) == spec_adpcm_filter(b2[0]),
        n <= 28,
    ensures
        spec_adpcm_history(b1, old, older, n) == spec_adpcm_history(b2, old, older, n),
    decreases n,
{
    if n > 0 {
        lemma_adpcm_same_history(b1, b2, old, older, (n - 1) as nat);
        let k = n - 1;
        assert(spec_adpcm_nibble(b1, k) == spec_adpcm_nibble(b2, k)) by {
            assert(b1[2 + k / 2] == b2[2 + k / 2]);
        }
        let (a, b) = spec_adpcm_history(b1, old, older, (n - 1) as nat);
        assert(spec_adpcm_sample(b1, k, a, b) == spec_adpcm_sample(b2, k, a, b));
    }
}

/// An ADPCM shift of 13 to 15 decodes as 9, and a filter of 5 to 7 as 4:
/// blocks that differ only so in their header give the same 28 samples and
/// the same decoder history.
pub proof fn law_adpcm_header_clamps(b1: Seq<u8>, b2: Seq<u8>, old: i16, older: i16)
    requires
        b1.len() >= 16,
        b2.len() == b1.len(),
        forall|i: int| 1 <= i < b1.len() ==> b1[i] == b2[i],
        spec_same_decoding(b1[0], b2[0]),
    ensures
        forall|k: nat| k <= 28 ==> #[trigger] spec_adpcm_history(b1, old, older, k) == spec_adpcm_history(b2, old, older, k),
{
    assert forall|k: nat| k <= 28 implies #[trigger] spec_adpcm_history(b1, old, older, k) == spec_adpcm_history(
        b2,
        old,
        older,
        k,
    ) by {
        lemma_adpcm_same_history(b1, b2, old, older, k);
    }
}

/// The low `c` bits of `v`.
pub open spec fn spec_low_bits(v: u16, c: u32) -> u16 {
    ((v as u32) & (((1u32 << c) - 1) as u32)) as u16
}

/// Adding bit `c - 1` of `v` to its low `c - 1` bits gives its low `c`
/// bits; none is 0, all sixteen are `v`, eight its low byte.
proof fn lemma_low_bits(v: u16, c: u32)
    by (bit_vector)
    requires
        1 <= c <= 16,
    ensures
        (if (v >> (c - 1) as u16) & 1 == 1 {
            spec_low_bits(v, (c - 1) as u32) | (1u16 << (c - 1) as u16)
        } else {
            spec_low_bits(v, (c - 1) as u32)
        }) == spec_low_bits(v, c),
        spec_low_bits(v, 0) == 0,
        spec_low_bits(v, 16) == v,
        spec_low_bits(v, 8) == v & 0xff,
{
}

/// A flag register read over voices whose flags were all just set from
/// `value` gives back the low `c` bits of `value`.
proof fn lemma_voice_bits_set(n: Seq<Voice>, base: int, c: int, value: u16, flag: spec_fn(Voice) -> bool)
    requires
        0 <= c <= 16,
        0 <= base,
        base + c <= n.len(),
        forall|k: int| 0 <= k < c ==> #[trigger] flag(n[base + k]) == spec_bit16(value, k),
    ensures
        spec_voice_bits(n, base, 0, c, flag) == spec_low_bits(value, c as u32),
    decreases c,
{
    lemma_low_bits(value, 1);
    if c > 0 {
        lemma_voice_bits_set(n, base, c - 1, value, flag);
        lemma_low_bits(value, c as u32);
        assert(flag(n[base + c - 1]) == spec_bit16(value, c - 1));
    }
}

/// The noise mode register reads back what was written to it, the high
/// half only for voices 16 to 23 (its low byte).
pub proof fn law_noise_mode_read_back(o: Seq<Voice>, n: Seq<Voice>, high: int, value: u16)
    requires
        high == 0 || high == 1,
        o.len() == 24,
        spec_voices_set(
            o,
            n,
            16 * high,
            0,
            if high == 1 { 8 } else { 16 },
            value,
            |v: Voice, b: bool| Voice { noise_mode: b, ..v },
        ),
    ensures
        spec_voice_bits(n, 16 * high, 0, if high == 1 { 8 } else { 16 }, |v: Voice| v.noise_mode) == if high == 0 {
            value
        } else {
            value & 0xff
        },
{
    let c: int = if high == 1 { 8 } else { 16 };
    let flag = |v: Voice| v.noise_mode;
    assert forall|k: int| 0 <= k < c implies #[trigger] flag(n[16 * high + k]) == spec_bit16(value, k) by {
        assert(n[16 * high + k] == Voice { noise_mode: spec_bit16(value, 16 * high + k - 16 * high), ..o[16 * high + k] });
    }
    lemma_voice_bits_set(n, 16 * high, c, value, flag);
    lemma_low_bits(value, 1);
}

/// An envelope step moves the level in its direction: never down when
/// increasing, never up when decreasing, in linear and exponential mode,
/// and keeps it within 0 to 7FFFh.
pub proof fn law_envelope_monotone(level: u16, dir: Direction, step: u8, shift: u8, mode: Mode)
    requires
        level <= 0x7fff,
        step <= 7,
    ensures
        spec_envelope_level(level, dir, step, shift, mode) <= 0x7fff,
        dir == Direction::Increasing ==> spec_envelope_level(level, dir, step, shift, mode) >= level,
        dir == Direction::Decreasing ==> spec_envelope_level(level, dir, step, shift, mode) <= level,
{
    let k: nat = if shift < 11 { (11 - shift) as nat } else { 0 };
    lemma_pow2_bounds(k);
    let p = spec_pow2(k);
    let s0: int = 7 - step;
    if dir == Direction::Decreasing {
        let s2 = (-s0 - 1) * p;
        assert(s2 <= 0) by (nonlinear_arith)
            requires
                s0 >= 0,
                p >= 1,
                s2 == (-s0 - 1) * p,
        ;
        assert(s2 * level <= 0) by (nonlinear_arith)
            requires
                s2 <= 0,
                level >= 0,
        ;
    } else {
        assert(s0 * p >= 0) by (nonlinear_arith)
            requires
                s0 >= 0,
                p >= 1,
        ;
    }
}

/// A signed halfword split into its two bytes, low first, and put back
/// together is the same halfword.
proof fn lemma_halfword_bytes(v: i16)
    by (bit_vector)
    ensures
        ((((v as u16) as u8) as u16 | (((((v as u16) >> 8u16) as u8) as u16) << 8u16)) as i16) == v,
{
}

/// A reverb buffer read at offset `pos` gives back what a write at `pos`
/// stored, clamped to 16 bits; the write changes only that halfword.
pub proof fn law_reverb_read_after_write(r: Reverb, mem: Seq<u8>, pos: usize, val: i32)
    requires
        r.wf(),
        mem.len() == SOUND_RAM_BYTES,
    ensures
        spec_at(r, spec_store(r, mem, pos, val, true), pos) == spec_clamp(val as int, -0x8000, 0x7fff),
        ({
            let a = spec_reverb_addr(r.m_base, r.current_buffer_address, pos) as int;
            forall|i: int| 0 <= i < mem.len() && i != a && i != a + 1 ==> #[trigger] spec_store(r, mem, pos, val, true)[i] == mem[i]
        }),
{
    let base = r.m_base;
    let sum = (base + (pos.wrapping_add(r.current_buffer_address).wrapping_sub(base) % ((0x8_0000 - base) as usize))) as usize;
    crate::bitfacts::lemma_and_le_usize(sum, 0x7_fffe);
    let a = spec_reverb_addr(r.m_base, r.current_buffer_address, pos) as int;
    assert(a + 1 < SOUND_RAM_BYTES);
    let v = spec_clamp(val as int, -0x8000, 0x7fff) as i16;
    let t = spec_write16(mem, a, v);
    assert(t[a] == (v as u16) as u8 && t[a + 1] == ((v as u16) >> 8u16) as u8);
    lemma_halfword_bytes(v);
    assert(spec_read16(t, a) == v as i32);
}

/// Masking a 16-bit coordinate to 10 or 9 bits takes it modulo 1024 or
/// 512.
proof fn lemma_mask_mod(x: u16)
    by (bit_vector)
    ensures
        x & 0x3ff == x % 1024,
        x & 0x1ff == x % 512,
{
}

/// A halfword split into bytes and joined again is the same; a word split
/// into halfwords and joined again is the same.
proof fn lemma_split_join(hw: u16, d: u32)
    by (bit_vector)
    ensures
        (((hw & 0xff) as u8) as u32) | ((((hw >> 8u16) as u8) as u32) << 8u32) == hw as u32,
        (((d & 0xffff) as u16) as u32) | ((((d >> 16u32) as u16) as u32) << 16u32) == d,
{
}

/// Where halfword `k` of a transfer to the rectangle at `tl`, `w` wide,
/// lands: column and row wrapped to VRAM.
proof fn lemma_xfer_pos(tl: (u16, u16), w: u16, k: int)
    requires
        1 <= w <= 1024,
        0 <= k,
        k / (w as int) < 512,
        tl.0 + w <= 0xffff,
        tl.1 + k / (w as int) <= 0xffff,
    ensures
        spec_xfer_pos(tl, w, k) == ((tl.0 + k % (w as int)) % 1024, (tl.1 + k / (w as int)) % 512),
        0 <= spec_xfer_pos(tl, w, k).0 < 1024 && 0 <= spec_xfer_pos(tl, w, k).1 < 512,
{
    let x = (tl.0 + k % (w as int)) as u16;
    let y = (tl.1 + k / (w as int)) as u16;
    assert(0 <= k % (w as int) < w);
    assert(0 <= k / (w as int));
    lemma_mask_mod(x);
    lemma_mask_mod(y);
}

/// Different halfwords of a transfer of at most 512 rows land on different
/// pixels.
proof fn lemma_xfer_distinct(tl: (u16, u16), w: u16, k1: int, k2: int)
    requires
        1 <= w <= 1024,
        0 <= k1 < k2,
        k2 / (w as int) < 512,
        tl.0 + w <= 0xffff,
        tl.1 + k2 / (w as int) <= 0xffff,
    ensures
        spec_xfer_pos(tl, w, k1) != spec_xfer_pos(tl, w, k2),
{
    let wi = w as int;
    assert(k1 / wi <= k2 / wi) by {
        vstd::arithmetic::div_mod::lemma_div_is_ordered(k1, k2, wi);
    }
    lemma_xfer_pos(tl, w, k1);
    lemma_xfer_pos(tl, w, k2);
    vstd::arithmetic::div_mod::lemma_fundamental_div_mod(k1, wi);
    vstd::arithmetic::div_mod::lemma_fundamental_div_mod(k2, wi);
    if k1 % wi == k2 % wi && k1 / wi == k2 / wi {
        assert(k1 == k2);
    }
}

/// The two bytes of pixel `p` after the first `n` halfwords of a transfer
/// are those of halfword `k` (`k < n`): no later halfword lands on it.
proof fn lemma_copy_in_keeps(v: Seq<u8>, tl: (u16, u16), w: u16, data: Seq<u32>, n: nat, k: int)
    requires
        v.len() == VRAM_BYTES,
        1 <= w <= 1024,
        0 <= k < n,
        (n - 1) / (w as int) < 512,
        tl.0 + w <= 0xffff,
        tl.1 + (n - 1) / (w as int) <= 0xffff,
    ensures
        spec_copy_in(v, tl, w, data, n).len() == VRAM_BYTES,
        spec_vram_hw(spec_copy_in(v, tl, w, data, n), spec_xfer_pos(tl, w, k)) == spec_word_half(data, k) as u32,
    decreases n,
{
    let p = spec_xfer_pos(tl, w, k);
    let last = n - 1;
    let q = spec_xfer_pos(tl, w, last);
    let prev = spec_copy_in(v, tl, w, data, (n - 1) as nat);
    vstd::arithmetic::div_mod::lemma_div_is_ordered(k, last, w as int);
    lemma_xfer_pos(tl, w, k);
    lemma_xfer_pos(tl, w, last);
    if n > 1 {
        vstd::arithmetic::div_mod::lemma_div_is_ordered(n - 2, last, w as int);
        if k < last {
            lemma_copy_in_keeps(v, tl, w, data, (n - 1) as nat, k);
        } else {
            lemma_copy_in_keeps(v, tl, w, data, (n - 1) as nat, 0);
        }
    }
    let hw = spec_word_half(data, last);
    assert(spec_copy_in(v, tl, w, data, n) == spec_set_px(prev, q.0, q.1, ((hw & 0xff) as u8, (hw >> 8u16) as u8)));
    if k == last {
        lemma_split_join(hw, 0);
    } else {
        lemma_xfer_distinct(tl, w, k, last);
        assert(spec_addr(p.0, p.1) != spec_addr(q.0, q.1));
    }
}

/// Reading back a rectangle of `w` by `h` pixels just copied in from the
/// CPU gives the same words: both go row by row, wrapping at the edges of
/// VRAM.
pub proof fn law_vram_copy_read_back(v: Seq<u8>, tl: (u16, u16), w: u16, h: u16, data: Seq<u32>)
    requires
        v.len() == VRAM_BYTES,
        1 <= w <= 1024,
        1 <= h <= 512,
        tl.0 + w <= 0xffff,
        tl.1 + h + 1 <= 0xffff,
        data.len() == (w * h + 1) / 2,
    ensures
        forall|j: int|
            0 <= j < data.len() ==> #[trigger] spec_readback_word(spec_copy_in(v, tl, w, data, (2 * data.len()) as nat), tl, w, j)
                == data[j],
{
    let n = (2 * data.len()) as nat;
    let wi = w as int;
    let hi = h as int;
    assert((n - 1) / wi < 512) by {
        if hi < 512 {
            assert(n - 1 <= wi * hi);
            assert(wi * hi < wi * 512) by (nonlinear_arith)
                requires
                    1 <= wi,
                    hi < 512,
            ;
            vstd::arithmetic::div_mod::lemma_div_is_ordered(n - 1, wi * 512 - 1, wi);
            assert((wi * 512 - 1) / wi == 511) by {
                vstd::arithmetic::div_mod::lemma_fundamental_div_mod_converse(wi * 512 - 1, wi, 511, wi - 1);
            }
        } else {
            assert(wi * hi == wi * 512);
            assert((wi * 512) % 2 == 0) by (nonlinear_arith)
                requires
                    wi >= 1,
            ;
            assert(n == wi * 512);
            assert((wi * 512 - 1) / wi == 511) by {
                vstd::arithmetic::div_mod::lemma_fundamental_div_mod_converse(wi * 512 - 1, wi, 511, wi - 1);
            }
        }
    }
    assert((n - 1) / wi <= hi) by {
        assert(n - 1 <= wi * hi);
        vstd::arithmetic::div_mod::lemma_div_is_ordered(n - 1, wi * hi, wi);
        vstd::arithmetic::div_mod::lemma_div_by_multiple(hi, wi);
        assert(wi * hi == hi * wi) by (nonlinear_arith);
    }
    let t = spec_copy_in(v, tl, w, data, n);
    assert forall|j: int| 0 <= j < data.len() implies #[trigger] spec_readback_word(t, tl, w, j) == data[j] by {
        vstd::arithmetic::div_mod::lemma_div_is_ordered(2 * j + 1, n - 1, wi);
        vstd::arithmetic::div_mod::lemma_div_is_ordered(2 * j, n - 1, wi);
        lemma_copy_in_keeps(v, tl, w, data, n, 2 * j);
        lemma_copy_in_keeps(v, tl, w, data, n, 2 * j + 1);
        assert(spec_word_half(data, 2 * j) == (data[j] & 0xffff) as u16);
        assert(spec_word_half(data, 2 * j + 1) == (data[j] >> 16u32) as u16);
        lemma_split_join(0, data[j]);
    }
}

/// An arithmetic right shift of `x` by `n` is the logical one with the
/// vacated top bits filled with copies of the sign bit.
proof fn lemma_arithmetic_shift(x: u32, n: u32)
    by (bit_vector)
    requires
        n < 32,
    ensures
        ((x as i32) >> n) as u32 == if x >> 31u32 == 1 { (x >> n) | !(0xffff_ffffu32 >> n) } else { x >> n },
{
}

/// SRA shifts the register right by the immediate, filling the vacated top
/// bits with the sign bit: a negative value stays negative.
pub proof fn law_sra_keeps_sign(before: Cpu, after: Cpu, instr: Instruction)
    requires
        before.load.0 < 32,
        spec_op_sra(before, after, instr),
        spec_rd(instr) != 0,
    ensures
        ({
            let x = before.regs[spec_rt(instr) as int];
            let n = spec_imm5(instr);
            after.regs[spec_rd(instr) as int] == if x >> 31u32 == 1 { (x >> n) | !(0xffff_ffffu32 >> n) } else { x >> n }
        }),
{
    crate::bitfacts::lemma_and_le_u32(instr.0 >> 6u32, 0x1f);
    crate::bitfacts::lemma_and_le_u32(instr.0 >> 11u32, 0x1f);
    crate::bitfacts::lemma_and_le_u32(instr.0 >> 16u32, 0x1f);
    lemma_arithmetic_shift(before.regs[spec_rt(instr) as int], spec_imm5(instr));
    let d = spec_rd(instr);
    let v = ((before.regs[spec_rt(instr) as int] as i32) >> spec_imm5(instr)) as u32;
    assert(before.regs@.len() == 32);
    assert(crate::cpu::spec_after_load(before).len() == 32);
    assert(after.regs@[d as int] == v);
}

/// Semi-transparency mode 2 subtracts the foreground from the background
/// in each channel, stopping at 0: the result never exceeds the
/// background, and added back to the foreground gives the background
/// unless it had to stop at 0.
pub proof fn law_blend_subtract(f: u8, b: u8)
    ensures
        spec_blend_channel(f, b, 2) <= b,
        spec_blend_channel(f, b, 2) > 0 ==> spec_blend_channel(f, b, 2) + f == b,
        spec_blend_channel(f, b, 2) == 0 ==> b <= f,
{
}

/// An AC code of a block with a non-zero quantisation factor stores its
/// coefficient in zig-zag scan order: at `ZAG_ZIG[k]` for scan position
/// `k`, every other entry of the block unchanged.
pub proof fn law_ac_in_zigzag_order(block: Seq<i16>, k: int, code: u16, qt: Seq<u8>, q_fact: int)
    requires
        block.len() == 64,
        qt.len() == 64,
        0 <= k,
        code != PADDING,
        k + 1 + ((code >> 10u16) & 0x3f) <= 63,
        q_fact != 0,
    ensures
        ({
            let pos = k + 1 + ((code >> 10u16) & 0x3f);
            let out = spec_ac_run(block, k, seq![code], qt, q_fact).0;
            &&& out.len() == 64
            &&& forall|i: int| 0 <= i < 64 && i != ZAG_ZIG[pos] as int ==> out[i] == block[i]
        }),
{
    let pos = k + 1 + ((code >> 10u16) & 0x3f);
    let rest = seq![code];
    assert(rest.drop_first() =~= Seq::<u16>::empty());
    crate::mdec::lemma_zag_zig_inverts_zig_zag(pos);
    reveal_with_fuel(spec_ac_run, 2);
    assert(rest.len() == 1 && rest[0] == code);
    let out = spec_ac_run(block, k, rest, qt, q_fact).0;
    let ac = crate::mdec::spec_signed10bit(code & 0x3ff) as int;
    let val = crate::mdec::spec_clamp10(crate::renderer::spec_tdiv(ac * (qt[pos] as int) * q_fact + 4, 8));
    assert(out == block.update(ZAG_ZIG[pos] as int, val as i16));
}

/// The Gaussian interpolation weighs the history samples oldest first:
/// the oldest (`h[0]`) by table entry FFh - i, then 1FFh - i, 100h + i, and
/// the newest (`h[3]`) by entry i, where i is the pitch counter's
/// fraction. Each sample alone gives its own weighted value.
pub proof fn law_gauss_weights(a: i16, pitch_counter: u16)
    ensures
        ({
            let i = ((pitch_counter >> 4u16) & 0xff) as int;
            &&& spec_interpolate(seq![a, 0, 0, 0], pitch_counter) == spec_shr15(GAUSSIAN_TABLE[0xff - i] * a) as i16
            &&& spec_interpolate(seq![0, a, 0, 0], pitch_counter) == spec_shr15(GAUSSIAN_TABLE[0x1ff - i] * a) as i16
            &&& spec_interpolate(seq![0, 0, a, 0], pitch_counter) == spec_shr15(GAUSSIAN_TABLE[0x100 + i] * a) as i16
            &&& spec_interpolate(seq![0, 0, 0, a], pitch_counter) == spec_shr15(GAUSSIAN_TABLE[i] * a) as i16
        }),
{
    crate::bitfacts::lemma_and_le_u16(pitch_counter >> 4u16, 0xff);
    let i = ((pitch_counter >> 4u16) & 0xff) as int;
    assert(spec_shr15(GAUSSIAN_TABLE[0xff - i] * 0) == 0);
    assert(spec_shr15(GAUSSIAN_TABLE[0x1ff - i] * 0) == 0);
    assert(spec_shr15(GAUSSIAN_TABLE[0x100 + i] * 0) == 0);
    assert(spec_shr15(GAUSSIAN_TABLE[i] * 0) == 0);
}

/// SetLoc with the minutes, seconds and sector `mm`, `ss`, `ff` (in BCD, in
/// that order) on a loaded disc puts the read position at sector
/// `(mm * 60 + ss) * 75 + ff`.
pub proof fn law_setloc_position(o: CDRom, n: CDRom, r: Result<crate::cdrom_controller::CommandResponse, CdRomError>, mm: u8, ss: u8, ff: u8)
    requires
        spec_command(o, n, 0x02, r),
        o.params().len() == 3,
        spec_from_bcd(o.params()[0]) == Some(mm),
        spec_from_bcd(o.params()[1]) == Some(ss),
        spec_from_bcd(o.params()[2]) == Some(ff),
        ss < 60,
        ff < 75,
        o.disk is Some,
    ensures
        r is Ok,
        n.disk is Some,
        n.disk->0.read_head == ((mm as int * 60 + ss as int) * 75 + ff as int) * SECTOR_SIZE,
{
}

/// SRAV shifts right by the low five bits of a register, filling the
/// vacated top bits with the sign bit.
pub proof fn law_srav_keeps_sign(before: Cpu, after: Cpu, instr: Instruction)
    requires
        before.load.0 < 32,
        spec_op_srav(before, after, instr),
        spec_rd(instr) != 0,
    ensures
        ({
            let x = before.regs[spec_rt(instr) as int];
            let n = before.regs[spec_rs(instr) as int] & 0x1f;
            after.regs[spec_rd(instr) as int] == if x >> 31u32 == 1 { (x >> n) | !(0xffff_ffffu32 >> n) } else { x >> n }
        }),
{
    crate::bitfacts::lemma_and_le_u32(instr.0 >> 11u32, 0x1f);
    crate::bitfacts::lemma_and_le_u32(instr.0 >> 16u32, 0x1f);
    crate::bitfacts::lemma_and_le_u32(instr.0 >> 21u32, 0x1f);
    let n = before.regs[spec_rs(instr) as int] & 0x1f;
    crate::bitfacts::lemma_and_le_u32(before.regs[spec_rs(instr) as int], 0x1f);
    lemma_arithmetic_shift(before.regs[spec_rt(instr) as int], n);
    let d = spec_rd(instr);
    assert(before.regs@.len() == 32);
    assert(crate::cpu::spec_after_load(before).len() == 32);
    assert(after.regs@[d as int] == ((before.regs[spec_rt(instr) as int] as i32) >> n) as u32);
}

/// The other semi-transparency modes: the average of background and
/// foreground (rounding each half down), their sum, and the background
/// plus a quarter of the foreground, the sums stopping at 255.
pub proof fn law_blend_modes(f: u8, b: u8)
    ensures
        spec_blend_channel(f, b, 0) == f / 2 + b / 2,
        spec_blend_channel(f, b, 1) == if f + b > 255 { 255 } else { f + b },
        spec_blend_channel(f, b, 3) == if b + f / 4 > 255 { 255 } else { b + f / 4 },
{
}

} // verus!
