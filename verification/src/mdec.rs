use vstd::prelude::*;
use std::collections::VecDeque;
use crate::renderer::spec_tdiv;
use crate::addressable::{AccessWidth, Addressable};
use crate::bytes::spec_read_le;

verus! {

/// The 10-bit two's complement value in the low bits of `v`.
pub open spec fn spec_signed10bit(v: u16) -> i16 {
    let low = (v & 0x3ff) as int;
    (if low >= 512 { low - 1024 } else { low }) as i16
}

/// Sign-extends the low 10 bits of `v`.
pub fn signed10bit(v: u16) -> (r: i16)
    ensures
        r == spec_signed10bit(v),
        -512 <= r <= 511,
{
    let low = v & 0x3ff;
    proof {
        crate::bitfacts::lemma_and_le_u16(v, 0x3ff);
    }
    if low >= 512 {
        (low as i16) - 1024
    } else {
        low as i16
    }
}

/// An 8-bit pixel from a luminance sample: the low 9 bits as a signed
/// value, clamped to `-128..=127`, then offset by 128.
pub open spec fn spec_level_shift(y: i16) -> u8 {
    let m = (y & 0x1ff) as int;
    let s = if m > 0xff { m - 512 } else { m };
    let c = if s < -128 { -128 } else if s > 127 { 127 } else { s };
    (c + 128) as u8
}

fn level_shift(y: i16) -> (r: u8)
    ensures
        r == spec_level_shift(y),
{
    let masked = y & 0x1FF;
    assert(0 <= masked <= 0x1ff) by (bit_vector)
        requires
            masked == y & 0x1ff,
    ;
    let s: i16 = if masked > 0xFF { masked - 512 } else { masked };
    let c: i16 = if s < -128 { -128 } else if s > 127 { 127 } else { s };
    (c + 128) as u8
}

/// The 8-bit pixels of a decoded luminance block.
pub fn level_shift_8bpp(block: [i16; 64]) -> (r: [u8; 64])
    ensures
        forall|i: int| 0 <= i < 64 ==> r[i] == spec_level_shift(block[i]),
{
    let mut out = [0u8; 64];
    let mut i: usize = 0;
    while i < 64
        invariant
            i <= 64,
            forall|j: int| 0 <= j < i ==> out[j] == spec_level_shift(block[j]),
        decreases 64 - i,
    {
        out[i] = level_shift(block[i]);
        i = i + 1;
    }
    out
}

/// The 4-bit pixels of a decoded luminance block, two per byte: the top
/// nibble of the even pixel low, of the odd pixel high.
pub fn level_shift_4bpp(block: [i16; 64]) -> (r: [u8; 32])
    ensures
        forall|i: int| 0 <= i < 32 ==> r[i] == ((spec_level_shift(block[2 * i]) >> 4u8) | (spec_level_shift(block[2 * i
            + 1]) & 0xf0)),
{
    let pixels = level_shift_8bpp(block);
    let mut out = [0u8; 32];
    let mut i: usize = 0;
    while i < 32
        invariant
            i <= 32,
            forall|j: int| 0 <= j < 64 ==> pixels[j] == spec_level_shift(block[j]),
            forall|j: int| 0 <= j < i ==> out[j] == ((spec_level_shift(block[2 * j]) >> 4u8) | (spec_level_shift(
                block[2 * j + 1],
            ) & 0xf0)),
        decreases 32 - i,
    {
        out[i] = (pixels[2 * i] >> 4) | (pixels[2 * i + 1] & 0xF0);
        i = i + 1;
    }
    out
}


/// Why the macroblock decoder refused an access.
#[derive(Clone, Copy, PartialEq, Eq, Structural, Debug)]
pub enum MdecError {
    /// Only 32-bit accesses are handled.
    Width,
    /// No register at that offset.
    Register,
}

/// Output depth of a macroblock decode.
#[derive(Clone, Copy, PartialEq, Eq, Structural, Debug)]
pub enum Depth {
    Bit4,
    Bit8,
    Bit24,
    Bit15,
}

/// Which quantization tables a SetQuantTable command sets.
#[derive(Clone, Copy, PartialEq, Eq, Structural, Debug)]
pub enum Color {
    Luminance,
    LuminanceAndColor,
}

/// A command of the decoder.
#[derive(Clone, Copy, PartialEq, Eq, Structural, Debug)]
pub enum CommandType {
    SetQuantTable(Color),
    SetScaleTable,
    DecodeMacroblock { depth: Depth, is_signed: bool, b15: bool },
}

/// A command being collected, with the parameter words received so far.
pub struct Command {
    pub command_type: CommandType,
    pub parameters: Vec<u32>,
}

/// The six decoded blocks of a colour macroblock: the two chrominance
/// blocks and the four luminance blocks of its 16x16 pixels, with the
/// output format that the conversion to pixels is to use.
pub struct ColourMacroblock {
    /// 24-bit pixels, else 15-bit.
    pub bit24: bool,
    /// Signed pixel components.
    pub is_signed: bool,
    /// Bit 15 of each 15-bit pixel.
    pub b15: bool,
    pub cr: [i16; 64],
    pub cb: [i16; 64],
    pub y1: [i16; 64],
    pub y2: [i16; 64],
    pub y3: [i16; 64],
    pub y4: [i16; 64],
}

/// The macroblock decoder: status and control registers, the command
/// being collected, the output FIFO and the tables.
pub struct Mdec {
    /// Bit 31 output FIFO empty, 29 busy, 28-27 data requests, 26-23 the
    /// output format of the last command.
    pub status: u32,
    pub control: u32,
    pub params_remaining: u16,
    pub command: Option<Command>,
    pub output_fifo: VecDeque<u32>,
    pub scale_table: [i16; 64],
    pub luminance_table: [u8; 64],
    pub chrominance_table: [u8; 64],
}

/// Where each coefficient of the zig-zag order goes in the 8x8 block.
pub const ZAG_ZIG: [usize; 64] = [
    0, 1, 8, 16, 9, 2, 3, 10, 17, 24, 32, 25, 18, 11, 4, 5, 12, 19, 26, 33, 40, 48, 41, 34, 27, 20, 13, 6, 7, 14, 21,
    28, 35, 42, 49, 56, 57, 50, 43, 36, 29, 22, 15, 23, 30, 37, 44, 51, 58, 59, 52, 45, 38, 31, 39, 46, 53, 60, 61,
    54, 47, 55, 62, 63,
];

/// The zig-zag position of each place of the 8x8 block.
pub const ZIG_ZAG: [usize; 64] = [
    0, 1, 5, 6, 14, 15, 27, 28, 2, 4, 7, 13, 16, 26, 29, 42, 3, 8, 12, 17, 25, 30, 41, 43, 9, 11, 18, 24, 31, 40, 44,
    53, 10, 19, 23, 32, 39, 45, 52, 54, 20, 22, 33, 38, 46, 51, 55, 60, 21, 34, 37, 47, 50, 56, 59, 61, 35, 36, 48, 49,
    57, 58, 62, 63,
];

/// `ZAG_ZIG` undoes `ZIG_ZAG`: each block place comes back to itself.
pub proof fn lemma_zag_zig_inverts_zig_zag(i: int)
    requires
        0 <= i < 64,
    ensures
        ZAG_ZIG[ZIG_ZAG[i] as int] == i,
        ZAG_ZIG[i] < 64,
{
    if i == 0 {
        } else if i == 1 {
        } else if i == 2 {
        } else if i == 3 {
        } else if i == 4 {
        } else if i == 5 {
        } else if i == 6 {
        } else if i == 7 {
        } else if i == 8 {
        } else if i == 9 {
        } else if i == 10 {
        } else if i == 11 {
        } else if i == 12 {
        } else if i == 13 {
        } else if i == 14 {
        } else if i == 15 {
        } else if i == 16 {
        } else if i == 17 {
        } else if i == 18 {
        } else if i == 19 {
        } else if i == 20 {
        } else if i == 21 {
        } else if i == 22 {
        } else if i == 23 {
        } else if i == 24 {
        } else if i == 25 {
        } else if i == 26 {
        } else if i == 27 {
        } else if i == 28 {
        } else if i == 29 {
        } else if i == 30 {
        } else if i == 31 {
        } else if i == 32 {
        } else if i == 33 {
        } else if i == 34 {
        } else if i == 35 {
        } else if i == 36 {
        } else if i == 37 {
        } else if i == 38 {
        } else if i == 39 {
        } else if i == 40 {
        } else if i == 41 {
        } else if i == 42 {
        } else if i == 43 {
        } else if i == 44 {
        } else if i == 45 {
        } else if i == 46 {
        } else if i == 47 {
        } else if i == 48 {
        } else if i == 49 {
        } else if i == 50 {
        } else if i == 51 {
        } else if i == 52 {
        } else if i == 53 {
        } else if i == 54 {
        } else if i == 55 {
        } else if i == 56 {
        } else if i == 57 {
        } else if i == 58 {
        } else if i == 59 {
        } else if i == 60 {
        } else if i == 61 {
        } else if i == 62 {
        } else {
        }
}

/// The padding word between blocks.
pub const PADDING: u16 = 0xFE00;

/// `v` clamped to `-0x400..=0x3FF`.
pub open spec fn spec_clamp10(v: int) -> int {
    if v < -0x400 { -0x400 } else if v > 0x3ff { 0x3ff } else { v }
}

/// `s` without its leading padding words.
pub open spec fn spec_skip_padding(s: Seq<u16>) -> Seq<u16>
    decreases s.len(),
{
    if s.len() > 0 && s[0] == PADDING {
        spec_skip_padding(s.drop_first())
    } else {
        s
    }
}

/// The AC coefficients of a block from `rest` on: each word holds a run of
/// zeros (bits 15-10) and a 10-bit level; `k` is the last filled
/// zig-zag position. Gives the block and the words left.
pub open spec fn spec_ac_run(block: Seq<i16>, k: int, rest: Seq<u16>, qt: Seq<u8>, q_fact: int) -> (Seq<i16>, Seq<u16>)
    decreases rest.len(),
{
    if rest.len() == 0 || rest[0] == PADDING {
        (block, rest)
    } else {
        let n = rest[0];
        let k2 = k + 1 + ((n >> 10u16) & 0x3f);
        if k2 > 63 {
            (block, rest.drop_first())
        } else {
            let ac = spec_signed10bit(n & 0x3ff) as int;
            let val = if q_fact == 0 {
                spec_clamp10(ac * 2)
            } else {
                spec_clamp10(spec_tdiv(ac * (qt[k2] as int) * q_fact + 4, 8))
            };
            let idx = if q_fact == 0 { k2 } else { ZAG_ZIG[k2] as int };
            let b2 = block.update(idx, val as i16);
            if k2 == 63 {
                (b2, rest.drop_first())
            } else {
                spec_ac_run(b2, k2, rest.drop_first(), qt, q_fact)
            }
        }
    }
}

/// Sum over `z < n` of `src[y + 8z] * (scale[x + 8z] / 8)`, the divisions
/// rounded toward zero.
pub open spec fn spec_idct_sum(src: Seq<i16>, scale: Seq<i16>, x: int, y: int, n: int) -> int
    decreases n,
{
    if n <= 0 {
        0
    } else {
        spec_idct_sum(src, scale, x, y, n - 1) + (src[y + (n - 1) * 8] as int) * spec_tdiv(scale[x + (n - 1) * 8] as int, 8)
    }
}

/// One pass of the inverse DCT: the output is transposed, so two passes
/// give the rows and the columns.
pub open spec fn spec_idct_pass(src: Seq<i16>, scale: Seq<i16>) -> Seq<i16> {
    Seq::new(64, |i: int| spec_tdiv(spec_idct_sum(src, scale, i % 8, i / 8, 8) + 0xfff, 0x2000) as i16)
}

/// The inverse DCT of a block: two passes.
pub open spec fn spec_idct(src: Seq<i16>, scale: Seq<i16>) -> Seq<i16> {
    spec_idct_pass(spec_idct_pass(src, scale), scale)
}

/// The DC coefficient of a block's first word: the 10-bit level, scaled by
/// 2, or by the quantization table's first entry in 16-bit arithmetic.
pub open spec fn spec_dc(w: u16, qt0: u8) -> i16 {
    let q_fact = (w >> 10u16) & 0x3f;
    let dc = spec_signed10bit(w & 0x3ff);
    if q_fact == 0 {
        spec_clamp10(dc * 2) as i16
    } else {
        spec_clamp10(dc.wrapping_mul(qt0 as i16) as int) as i16
    }
}

/// A decoded block and the words left: padding skipped, the DC and AC
/// coefficients read, then the inverse DCT; a zero block when no word is
/// left.
pub open spec fn spec_decode_block(source: Seq<u16>, qt: Seq<u8>, scale: Seq<i16>) -> (Seq<i16>, Seq<u16>) {
    let s = spec_skip_padding(source);
    if s.len() == 0 {
        (Seq::new(64, |i: int| 0i16), s)
    } else {
        let w = s[0];
        let b0 = Seq::new(64, |i: int| 0i16).update(ZAG_ZIG[0] as int, spec_dc(w, qt[0]));
        let (b, rest) = spec_ac_run(b0, 0, s.drop_first(), qt, ((w >> 10u16) & 0x3f) as int);
        (spec_idct(b, scale), rest)
    }
}

/// Skipping padding keeps a suffix.
proof fn lemma_skip_padding(s: Seq<u16>)
    ensures
        spec_skip_padding(s).len() <= s.len(),
        spec_skip_padding(s) == s.skip(s.len() - spec_skip_padding(s).len()),
        spec_skip_padding(s).len() > 0 ==> spec_skip_padding(s)[0] != PADDING,
    decreases s.len(),
{
    if s.len() > 0 && s[0] == PADDING {
        lemma_skip_padding(s.drop_first());
        assert(s.drop_first().skip(s.drop_first().len() - spec_skip_padding(s).len()) =~= s.skip(
            s.len() - spec_skip_padding(s).len(),
        ));
    } else {
        assert(s.skip(0) =~= s);
    }
}

/// The AC run leaves a suffix of what it was given.
proof fn lemma_ac_run_suffix(block: Seq<i16>, k: int, rest: Seq<u16>, qt: Seq<u8>, q_fact: int)
    requires
        block.len() == 64,
        0 <= k,
    ensures
        spec_ac_run(block, k, rest, qt, q_fact).1.len() <= rest.len(),
        spec_ac_run(block, k, rest, qt, q_fact).0.len() == 64,
    decreases rest.len(),
{
    if !(rest.len() == 0 || rest[0] == PADDING) {
        let n = rest[0];
        let k2 = k + 1 + ((n >> 10u16) & 0x3f);
        if k2 <= 63 {
            lemma_zag_zig_inverts_zig_zag(k2);
        }
        if k2 <= 63 && k2 != 63 {
            let ac = spec_signed10bit(n & 0x3ff) as int;
            let val = if q_fact == 0 {
                spec_clamp10(ac * 2)
            } else {
                spec_clamp10(spec_tdiv(ac * (qt[k2] as int) * q_fact + 4, 8))
            };
            let idx = if q_fact == 0 { k2 } else { ZAG_ZIG[k2] as int };
            lemma_ac_run_suffix(block.update(idx, val as i16), k2, rest.drop_first(), qt, q_fact);
        }
    }
}

/// A block decoded from words that are not all padding uses up at least
/// one word.
pub proof fn lemma_decode_block_consumes(source: Seq<u16>, qt: Seq<u8>, scale: Seq<i16>)
    ensures
        spec_decode_block(source, qt, scale).1.len() <= source.len(),
        spec_skip_padding(source).len() > 0 ==> spec_decode_block(source, qt, scale).1.len() < source.len(),
        spec_decode_block(source, qt, scale).0.len() == 64,
{
    lemma_skip_padding(source);
    let s = spec_skip_padding(source);
    if s.len() > 0 {
        let w = s[0];
        let b0 = Seq::new(64, |i: int| 0i16).update(ZAG_ZIG[0] as int, spec_dc(w, qt[0]));
        lemma_ac_run_suffix(b0, 0, s.drop_first(), qt, ((w >> 10u16) & 0x3f) as int);
    }
}

/// Truncating division by 8.
fn tdiv8(x: i32) -> (r: i32)
    ensures
        r == spec_tdiv(x as int, 8),
{
    if x >= 0 {
        x / 8
    } else {
        let y: i64 = -(x as i64);
        -((y / 8) as i32)
    }
}

/// Truncating division by 2000h.
fn tdiv2000(x: i32) -> (r: i32)
    ensures
        r == spec_tdiv(x as int, 0x2000),
{
    if x >= 0 {
        x / 0x2000
    } else {
        let y: i64 = -(x as i64);
        -((y / 0x2000) as i32)
    }
}

/// `v` clamped to `-0x400..=0x3FF`.
fn clamp10(v: i32) -> (r: i32)
    ensures
        r == spec_clamp10(v as int),
{
    if v < -0x400 {
        -0x400
    } else if v > 0x3ff {
        0x3ff
    } else {
        v
    }
}

/// One pass of the inverse DCT with `scale`.
fn idct_pass(src: &[i16; 64], scale: &[i16; 64]) -> (r: [i16; 64])
    ensures
        r@ == spec_idct_pass(src@, scale@),
{
    let mut dst = [0i16; 64];
    let mut x: usize = 0;
    while x < 8
        invariant
            x <= 8,
            forall|i: int| 0 <= i < 64 && i % 8 < x ==> #[trigger] dst@[i] == spec_idct_pass(src@, scale@)[i],
        decreases 8 - x,
    {
        let mut y: usize = 0;
        while y < 8
            invariant
                x < 8,
                y <= 8,
                forall|i: int| 0 <= i < 64 && (i % 8 < x || (i % 8 == x && i / 8 < y)) ==> #[trigger] dst@[i]
                    == spec_idct_pass(src@, scale@)[i],
            decreases 8 - y,
        {
            let mut sum: i32 = 0;
            let mut z: usize = 0;
            while z < 8
                invariant
                    x < 8,
                    y < 8,
                    z <= 8,
                    sum == spec_idct_sum(src@, scale@, x as int, y as int, z as int),
                    -0x4000_0000 * z <= sum * 8 <= 0x4000_0000 * z,
                decreases 8 - z,
            {
                let a = src[y + z * 8] as i32;
                let b = tdiv8(scale[x + z * 8] as i32);
                assert(-0x1000 <= b <= 0x1000) by {
                    assert(-0x8000 <= scale[x + z * 8] <= 0x7fff);
                }
                assert(-0x800_0000 <= a * b <= 0x800_0000) by (nonlinear_arith)
                    requires
                        -0x8000 <= a <= 0x7fff,
                        -0x1000 <= b <= 0x1000,
                ;
                sum = sum + a * b;
                z = z + 1;
            }
            let v = tdiv2000(sum + 0xfff);
            let i = x + y * 8;
            dst[i] = #[verifier::truncate] (v as i16);
            proof {
                assert(i % 8 == x && i / 8 == y);
            }
            y = y + 1;
        }
        x = x + 1;
    }
    assert(dst@ =~= spec_idct_pass(src@, scale@));
    dst
}


impl Mdec {
    /// The inverse DCT of `src` with the scale table, in place.
    fn inverse_discrete_cosine(&self, src: &mut [i16; 64])
        ensures
            final(src)@ == spec_idct(old(src)@, self.scale_table@),
    {
        let a = idct_pass(src, &self.scale_table);
        let b = idct_pass(&a, &self.scale_table);
        *src = b;
    }

    /// Decodes the next block of `source` with quantization table `qt`:
    /// padding words are skipped, the first word gives the quantization
    /// factor and the DC coefficient, each next word a run of zeros and an
    /// AC coefficient, until padding, the end or the 64th coefficient;
    /// then the inverse DCT. A zero block when only padding is left.
    pub fn decode_block(&self, source: &mut VecDeque<u16>, qt: &[u8]) -> (r: [i16; 64])
        requires
            qt@.len() >= 64,
        ensures
            r@ == spec_decode_block(old(source)@, qt@, self.scale_table@).0,
            final(source)@ == spec_decode_block(old(source)@, qt@, self.scale_table@).1,
    {
        let ghost orig = source@;
        let mut block = [0i16; 64];
        proof {
            lemma_skip_padding(orig);
        }
        while source.len() > 0 && source[0] == PADDING
            invariant
                spec_skip_padding(source@) == spec_skip_padding(orig),
            decreases source@.len(),
        {
            let _ = source.pop_front();
        }
        if source.len() == 0 {
            assert(block@ =~= Seq::new(64, |i: int| 0i16));
            return block;
        }
        let ghost s = source@;
        let first_word = match source.pop_front() {
            Some(w) => w,
            None => 0,
        };
        let qf16 = (first_word >> 10) & 0x3f;
        let q_fact = qf16 as i32;
        let dc_coeff = signed10bit(first_word & 0x3ff);
        let dc_val: i16 = if q_fact == 0 {
            clamp10((dc_coeff as i32) * 2) as i16
        } else {
            clamp10(dc_coeff.wrapping_mul(qt[0] as i16) as i32) as i16
        };
        block[0] = dc_val;
        let ghost b0 = block@;
        proof {
            crate::bitfacts::lemma_and_le_u16(first_word >> 10u16, 0x3f);
            assert(b0 =~= Seq::new(64, |i: int| 0i16).update(ZAG_ZIG[0] as int, spec_dc(first_word, qt@[0])));
        }
        let ghost target = spec_ac_run(b0, 0, s.drop_first(), qt@, q_fact as int);
        let mut k: usize = 0;
        loop
            invariant_except_break
                k < 63,
                spec_ac_run(block@, k as int, source@, qt@, q_fact as int) == target,
            invariant
                qt@.len() >= 64,
                0 <= q_fact <= 0x3f,
            ensures
                block@ == target.0,
                source@ == target.1,
            decreases source@.len(),
        {
            if source.len() == 0 || source[0] == PADDING {
                break;
            }
            let n = match source.pop_front() {
                Some(w) => w,
                None => 0,
            };
            let run = ((n >> 10) & 0x3f) as usize;
            proof {
                crate::bitfacts::lemma_and_le_u16(n >> 10u16, 0x3f);
            }
            k = k + 1 + run;
            if k > 63 {
                break;
            }
            proof {
                lemma_zag_zig_inverts_zig_zag(k as int);
            }
            let ac_level = signed10bit(n & 0x3ff) as i32;
            let val = if q_fact == 0 {
                clamp10(ac_level * 2)
            } else {
                let qt_val = qt[k] as i32;
                assert(-512 * 255 <= ac_level * qt_val <= 511 * 255) by (nonlinear_arith)
                    requires
                        -512 <= ac_level <= 511,
                        0 <= qt_val <= 255,
                ;
                assert(-512 * 255 * 63 <= ac_level * qt_val * q_fact <= 511 * 255 * 63) by (nonlinear_arith)
                    requires
                        -512 <= ac_level <= 511,
                        0 <= qt_val <= 255,
                        0 <= q_fact <= 63,
                ;
                clamp10(tdiv8(ac_level * qt_val * q_fact + 4))
            };
            let target_idx = if q_fact == 0 { k } else { ZAG_ZIG[k] };
            block[target_idx] = val as i16;
            if k == 63 {
                break;
            }
        }
        self.inverse_discrete_cosine(&mut block);
        block
    }
}


/// Byte `j` of the little-endian bytes of the words `p`.
pub open spec fn spec_param_byte(p: Seq<u32>, j: int) -> u8 {
    ((p[j / 4] >> (8 * (j % 4)) as u32) & 0xff) as u8
}

/// Halfword `j` of the little-endian halfwords of the words `p`.
pub open spec fn spec_param_half(p: Seq<u32>, j: int) -> u16 {
    if j % 2 == 0 {
        (p[j / 2] & 0xffff) as u16
    } else {
        ((p[j / 2] >> 16u32) & 0xffff) as u16
    }
}

/// The little-endian halfwords of the words `p`.
pub open spec fn spec_halfwords(p: Seq<u32>) -> Seq<u16> {
    Seq::new(2 * p.len(), |j: int| spec_param_half(p, j))
}

/// The little-endian words of the bytes `b`, four bytes each.
pub open spec fn spec_pack(b: Seq<u8>) -> Seq<u32> {
    Seq::new(b.len() / 4, |i: int| spec_read_le(b, 4 * i, AccessWidth::Word))
}

/// The 8-bit pixels of a luminance block.
pub open spec fn spec_shift8(b: Seq<i16>) -> Seq<u8> {
    Seq::new(64, |i: int| spec_level_shift(b[i]))
}

/// The 4-bit pixels of a luminance block, two per byte.
pub open spec fn spec_shift4(b: Seq<i16>) -> Seq<u8> {
    Seq::new(32, |i: int| (spec_level_shift(b[2 * i]) >> 4u8) | (spec_level_shift(b[2 * i + 1]) & 0xf0))
}

/// The colour macroblocks of `src`, each six blocks (two chrominance, four
/// luminance), until only padding is left.
pub open spec fn spec_colour_blocks(src: Seq<u16>, lum: Seq<u8>, chrom: Seq<u8>, scale: Seq<i16>) -> Seq<Seq<Seq<i16>>>
    decreases src.len(),
{
    let s = spec_skip_padding(src);
    if s.len() == 0 {
        Seq::empty()
    } else {
        let cr = spec_decode_block(s, chrom, scale);
        let cb = spec_decode_block(cr.1, chrom, scale);
        let y1 = spec_decode_block(cb.1, lum, scale);
        let y2 = spec_decode_block(y1.1, lum, scale);
        let y3 = spec_decode_block(y2.1, lum, scale);
        let y4 = spec_decode_block(y3.1, lum, scale);
        if y4.1.len() < src.len() {
            seq![seq![cr.0, cb.0, y1.0, y2.0, y3.0, y4.0]] + spec_colour_blocks(y4.1, lum, chrom, scale)
        } else {
            Seq::empty()
        }
    }
}

/// The six blocks of a colour macroblock, in order.
pub open spec fn spec_cmb(m: ColourMacroblock) -> Seq<Seq<i16>> {
    seq![m.cr@, m.cb@, m.y1@, m.y2@, m.y3@, m.y4@]
}

/// Number of parameter words of a table command.
pub open spec fn spec_table_words(c: CommandType) -> nat {
    match c {
        CommandType::SetQuantTable(Color::Luminance) => 16,
        CommandType::SetQuantTable(Color::LuminanceAndColor) => 32,
        CommandType::SetScaleTable => 32,
        CommandType::DecodeMacroblock { .. } => 0,
    }
}

/// The depth named by bits 1-0 of `v`.
pub open spec fn spec_depth(v: u32) -> Depth {
    if v == 0 {
        Depth::Bit4
    } else if v == 1 {
        Depth::Bit8
    } else if v == 2 {
        Depth::Bit24
    } else {
        Depth::Bit15
    }
}

/// What a macroblock decode of `params` at `depth` does (`o` becomes
/// `n`): 4- and 8-bit blocks go to the output FIFO as words; colour
/// macroblocks are handed out (`out`) for the colour conversion.
pub open spec fn spec_decode_macroblock(
    o: Mdec,
    n: Mdec,
    depth: Depth,
    is_signed: bool,
    b15: bool,
    params: Seq<u32>,
    out: Seq<ColourMacroblock>,
) -> bool {
    let src = spec_halfwords(params);
    &&& n == (Mdec { output_fifo: n.output_fifo, status: o.status & 0x7fff_ffff, ..o })
    &&& match depth {
        Depth::Bit4 => out.len() == 0 && n.output_fifo@ == o.output_fifo@ + spec_pack(
            spec_shift4(spec_decode_block(src, o.luminance_table@, o.scale_table@).0),
        ),
        Depth::Bit8 => out.len() == 0 && n.output_fifo@ == o.output_fifo@ + spec_pack(
            spec_shift8(spec_decode_block(src, o.luminance_table@, o.scale_table@).0),
        ),
        _ => {
            &&& n.output_fifo@ == o.output_fifo@
            &&& out.map_values(|m: ColourMacroblock| spec_cmb(m)) == spec_colour_blocks(
                src,
                o.luminance_table@,
                o.chrominance_table@,
                o.scale_table@,
            )
            &&& forall|i: int| 0 <= i < out.len() ==> spec_flags(#[trigger] out[i], depth == Depth::Bit24, is_signed, b15)
        },
    }
}

/// What a complete command with parameters `params` does (`o` becomes `n`).
pub open spec fn spec_handle(o: Mdec, n: Mdec, c: CommandType, params: Seq<u32>, out: Seq<ColourMacroblock>) -> bool {
    match c {
        CommandType::SetQuantTable(color) => {
            &&& out.len() == 0
            &&& n == (Mdec { luminance_table: n.luminance_table, chrominance_table: n.chrominance_table, ..o })
            &&& n.luminance_table@ == Seq::new(64, |j: int| spec_param_byte(params, j))
            &&& n.chrominance_table@ == if color == Color::LuminanceAndColor {
                Seq::new(64, |j: int| spec_param_byte(params, 64 + j))
            } else {
                o.chrominance_table@
            }
        },
        CommandType::SetScaleTable => {
            &&& out.len() == 0
            &&& n == (Mdec { scale_table: n.scale_table, ..o })
            &&& n.scale_table@ == Seq::new(64, |j: int| spec_param_half(params, j) as i16)
        },
        CommandType::DecodeMacroblock { depth, is_signed, b15 } => spec_decode_macroblock(o, n, depth, is_signed, b15, params, out),
    }
}

/// The status after a command word: its output format in bits 26-23.
pub open spec fn spec_cmd_status(status: u32, data: u32) -> u32 {
    (status & !0x0780_0000u32) | (((data >> 25u32) & 0xf) << 23u32)
}

/// What writing `val` to the control register does (`o` becomes `n`).
pub open spec fn spec_set_control(o: Mdec, n: Mdec, val: u32) -> bool {
    let reset = val & 0x8000_0000 != 0;
    let s0 = if reset { 0x8004_0000u32 } else { o.status };
    &&& n.status == (s0 & !0x1800_0000u32) | ((val >> 2u32) & 0x1800_0000)
    &&& n.control == val
    &&& n.params_remaining == if reset { 0 } else { o.params_remaining }
    &&& reset ==> n.command is None
    &&& !reset ==> n.command == o.command
    &&& n.output_fifo == o.output_fifo
    &&& n.scale_table == o.scale_table
    &&& n.luminance_table == o.luminance_table
    &&& n.chrominance_table == o.chrominance_table
}

/// What a word written to the command/parameter register does (`o`
/// becomes `n`): a command word when none is pending, else a parameter;
/// the last parameter runs the command.
pub open spec fn spec_command_or_param(o: Mdec, n: Mdec, val: u32, out: Seq<ColourMacroblock>) -> bool {
    match o.command {
        None => spec_decode_command(o, n, val) && out.len() == 0,
        Some(cmd) => {
            let pr = o.params_remaining.wrapping_sub(1);
            let params = cmd.parameters@.push(val);
            if pr == 0 {
                spec_handle(
                    Mdec { status: o.status & !0x2000_0000u32, params_remaining: 0, command: None, ..o },
                    n,
                    cmd.command_type,
                    params,
                    out,
                )
            } else {
                &&& out.len() == 0
                &&& n == (Mdec { params_remaining: pr, command: n.command, ..o })
                &&& n.command matches Some(c2) && c2.command_type == cmd.command_type && c2.parameters@ == params
            }
        },
    }
}

/// What command word `data` does (`o` becomes `n`).
pub open spec fn spec_decode_command(o: Mdec, n: Mdec, data: u32) -> bool {
    let st = spec_cmd_status(o.status, data);
    let c = data >> 29u32;
    let plen = (data & 0xffff) as u16;
    if c == 1 || c == 2 || c == 3 {
        let ct = if c == 1 {
            CommandType::DecodeMacroblock {
                depth: spec_depth((data >> 27u32) & 3),
                is_signed: (data >> 26u32) & 1 == 1,
                b15: (data >> 25u32) & 1 == 1,
            }
        } else if c == 2 {
            CommandType::SetQuantTable(if data & 1 == 0 { Color::Luminance } else { Color::LuminanceAndColor })
        } else {
            CommandType::SetScaleTable
        };
        &&& n == (Mdec {
            status: st | 0x2000_0000,
            params_remaining: if c == 1 { plen } else { spec_table_words(ct) as u16 },
            command: n.command,
            ..o
        })
        &&& n.command matches Some(cmd) && cmd.command_type == ct && cmd.parameters@.len() == 0
    } else {
        n == (Mdec { status: st, params_remaining: plen.wrapping_add(1), ..o })
    }
}

impl Mdec {
    /// Parameter counts fit the command being collected.
    pub open spec fn wf(&self) -> bool {
        match self.command {
            None => true,
            Some(c) => match c.command_type {
                CommandType::DecodeMacroblock { .. } => c.parameters@.len() + self.params_remaining <= 0x10000 && (
                self.params_remaining == 0 ==> c.parameters@.len() == 0),
                _ => self.params_remaining >= 1 && c.parameters@.len() + self.params_remaining == spec_table_words(
                    c.command_type,
                ),
            },
        }
    }

    /// A decoder after reset: output FIFO empty, nothing pending, zero
    /// tables.
    pub fn new() -> (r: Mdec)
        ensures
            r.wf(),
            r.status == 0x8004_0000 && r.control == 0 && r.params_remaining == 0 && r.command is None,
            r.output_fifo@.len() == 0,
            r.scale_table@ == Seq::new(64, |i: int| 0i16),
            r.luminance_table@ == Seq::new(64, |i: int| 0u8),
            r.chrominance_table@ == Seq::new(64, |i: int| 0u8),
    {
        let r = Mdec {
            status: 0x8004_0000,
            control: 0,
            params_remaining: 0,
            command: None,
            output_fifo: VecDeque::new(),
            scale_table: [0; 64],
            luminance_table: [0; 64],
            chrominance_table: [0; 64],
        };
        assert(r.scale_table@ =~= Seq::new(64, |i: int| 0i16));
        assert(r.luminance_table@ =~= Seq::new(64, |i: int| 0u8));
        assert(r.chrominance_table@ =~= Seq::new(64, |i: int| 0u8));
        r
    }

    /// The status register: the flags, and the parameter words still
    /// expected minus one in the low half.
    pub fn get_status(&mut self) -> (r: u32)
        ensures
            r == (old(self).status & !0xffffu32) | (old(self).params_remaining.wrapping_sub(1) as u32),
            *final(self) == *old(self),
    {
        (self.status & !0xFFFF) | (self.params_remaining.wrapping_sub(1) as u32)
    }

    /// Writes the control register: bit 31 resets the decoder, bits 30 and
    /// 29 enable the data requests (status bits 28 and 27).
    pub fn set_control(&mut self, val: u32)
        requires
            old(self).wf(),
        ensures
            final(self).wf(),
            spec_set_control(*old(self), *final(self), val),
    {
        self.control = val;
        if val & 0x8000_0000 != 0 {
            self.status = 0x8004_0000;
            self.params_remaining = 0;
            self.command = None;
        }
        self.status = (self.status & !0x1800_0000u32) | ((val >> 2) & 0x1800_0000);
    }

    /// Takes the next word off the output FIFO, FE00FE00h when it is
    /// empty; the FIFO-empty flag goes up once it is.
    pub fn get_response_data(&mut self) -> (r: u32)
        ensures
            r == if old(self).output_fifo@.len() > 0 { old(self).output_fifo@[0] } else { 0xFE00_FE00u32 },
            final(self).output_fifo@ == if old(self).output_fifo@.len() > 0 {
                old(self).output_fifo@.drop_first()
            } else {
                old(self).output_fifo@
            },
            *final(self) == (Mdec {
                output_fifo: final(self).output_fifo,
                status: if old(self).output_fifo@.len() <= 1 { old(self).status | 0x8000_0000 } else { old(self).status },
                ..*old(self)
            }),
    {
        let data = match self.output_fifo.pop_front() {
            Some(w) => w,
            None => 0xFE00_FE00,
        };
        if self.output_fifo.len() == 0 {
            self.status = self.status | 0x8000_0000;
        }
        data
    }

    /// Appends converted pixel words to the output FIFO.
    pub fn push_output_words(&mut self, words: &[u32])
        ensures
            *final(self) == (Mdec { output_fifo: final(self).output_fifo, ..*old(self) }),
            final(self).output_fifo@ == old(self).output_fifo@ + words@,
    {
        let mut i: usize = 0;
        while i < words.len()
            invariant
                i <= words@.len(),
                *self == (Mdec { output_fifo: self.output_fifo, ..*old(self) }),
                self.output_fifo@ == old(self).output_fifo@ + words@.take(i as int),
            decreases words@.len() - i,
        {
            self.output_fifo.push_back(words[i]);
            assert(words@.take(i + 1) =~= words@.take(i as int).push(words@[i as int]));
            i = i + 1;
        }
        assert(words@.take(words@.len() as int) =~= words@);
    }

    /// Takes a command word: its output format goes to the status; a
    /// macroblock decode or a table command starts collecting its
    /// parameters (busy flag up); other commands only set the count of
    /// words to skip.
    pub fn decode_command(&mut self, data: u32)
        requires
            old(self).wf(),
        ensures
            spec_decode_command(*old(self), *final(self), data),
            old(self).command is None ==> final(self).wf(),
    {
        self.status = (self.status & !0x0780_0000u32) | (((data >> 25) & 0xF) << 23);
        let c = data >> 29;
        let plen = (data & 0xffff) as u16;
        if c == 1 {
            self.status = self.status | 0x2000_0000;
            self.params_remaining = plen;
            let d = (data >> 27) & 3;
            let depth = if d == 0 {
                Depth::Bit4
            } else if d == 1 {
                Depth::Bit8
            } else if d == 2 {
                Depth::Bit24
            } else {
                Depth::Bit15
            };
            self.command = Some(
                Command {
                    command_type: CommandType::DecodeMacroblock {
                        depth,
                        is_signed: (data >> 26) & 1 == 1,
                        b15: (data >> 25) & 1 == 1,
                    },
                    parameters: Vec::new(),
                },
            );
        } else if c == 2 {
            self.status = self.status | 0x2000_0000;
            let color = if data & 1 == 0 { Color::Luminance } else { Color::LuminanceAndColor };
            self.params_remaining = if data & 1 == 0 { 16 } else { 32 };
            self.command = Some(Command { command_type: CommandType::SetQuantTable(color), parameters: Vec::new() });
        } else if c == 3 {
            self.status = self.status | 0x2000_0000;
            self.params_remaining = 32;
            self.command = Some(Command { command_type: CommandType::SetScaleTable, parameters: Vec::new() });
        } else {
            self.params_remaining = plen.wrapping_add(1);
        }
    }
}


/// Appends the little-endian words of `bytes` to `fifo`.
fn push_packed<const N: usize>(fifo: &mut VecDeque<u32>, bytes: &[u8; N])
    requires
        N % 4 == 0,
    ensures
        final(fifo)@ == old(fifo)@ + spec_pack(bytes@),
{
    let n = N / 4;
    let mut i: usize = 0;
    while i < n
        invariant
            n == N / 4,
            N % 4 == 0,
            i <= n,
            fifo@ == old(fifo)@ + spec_pack(bytes@).take(i as int),
        decreases n - i,
    {
        let b0 = bytes[4 * i];
        let b1 = bytes[4 * i + 1];
        let b2 = bytes[4 * i + 2];
        let b3 = bytes[4 * i + 3];
        let w = (b0 as u32) | ((b1 as u32) << 8) | ((b2 as u32) << 16) | ((b3 as u32) << 24);
        fifo.push_back(w);
        assert(spec_pack(bytes@).take(i + 1) =~= spec_pack(bytes@).take(i as int).push(w));
        i = i + 1;
    }
    assert(spec_pack(bytes@).take(n as int) =~= spec_pack(bytes@));
}

/// Macroblocks that all carry the given output format still do with one
/// more that carries it.
proof fn lemma_push_flags(prev: Seq<ColourMacroblock>, m: ColourMacroblock, bit24: bool, is_signed: bool, b15: bool)
    requires
        forall|i: int| 0 <= i < prev.len() ==> spec_flags(#[trigger] prev[i], bit24, is_signed, b15),
        spec_flags(m, bit24, is_signed, b15),
    ensures
        forall|i: int| 0 <= i < prev.push(m).len() ==> spec_flags(#[trigger] prev.push(m)[i], bit24, is_signed, b15),
{
    assert forall|i: int| 0 <= i < prev.push(m).len() implies spec_flags(#[trigger] prev.push(m)[i], bit24, is_signed, b15) by {
        if i < prev.len() {
            assert(prev.push(m)[i] == prev[i]);
        } else {
            assert(prev.push(m)[i] == m);
        }
    }
}

/// A colour macroblock carries the given output format.
pub open spec fn spec_flags(m: ColourMacroblock, bit24: bool, is_signed: bool, b15: bool) -> bool {
    m.bit24 == bit24 && m.is_signed == is_signed && m.b15 == b15
}

/// Skipping padding twice is skipping it once; a sequence that does not
/// start with padding is left as it is.
proof fn lemma_skip_padding_fixed(s: Seq<u16>)
    requires
        s.len() == 0 || s[0] != PADDING,
    ensures
        spec_skip_padding(s) == s,
{
}

/// One colour macroblock off a source whose padding is skipped.
proof fn lemma_colour_step(before: Seq<u16>, lum: Seq<u8>, chrom: Seq<u8>, scale: Seq<i16>)
    requires
        spec_skip_padding(before).len() > 0,
    ensures
        ({
            let s = spec_skip_padding(before);
            let cr = spec_decode_block(s, chrom, scale);
            let cb = spec_decode_block(cr.1, chrom, scale);
            let y1 = spec_decode_block(cb.1, lum, scale);
            let y2 = spec_decode_block(y1.1, lum, scale);
            let y3 = spec_decode_block(y2.1, lum, scale);
            let y4 = spec_decode_block(y3.1, lum, scale);
            &&& y4.1.len() < before.len()
            &&& spec_colour_blocks(before, lum, chrom, scale) == seq![seq![cr.0, cb.0, y1.0, y2.0, y3.0, y4.0]]
                + spec_colour_blocks(y4.1, lum, chrom, scale)
        }),
{
    let s = spec_skip_padding(before);
    lemma_skip_padding(before);
    lemma_skip_padding(s);
    lemma_skip_padding_fixed(s);
    let cr = spec_decode_block(s, chrom, scale);
    let cb = spec_decode_block(cr.1, chrom, scale);
    let y1 = spec_decode_block(cb.1, lum, scale);
    let y2 = spec_decode_block(y1.1, lum, scale);
    let y3 = spec_decode_block(y2.1, lum, scale);
    lemma_decode_block_consumes(s, chrom, scale);
    lemma_decode_block_consumes(cr.1, chrom, scale);
    lemma_decode_block_consumes(cb.1, lum, scale);
    lemma_decode_block_consumes(y1.1, lum, scale);
    lemma_decode_block_consumes(y2.1, lum, scale);
    lemma_decode_block_consumes(y3.1, lum, scale);
}

impl Mdec {
    /// The halfwords of `parameters`, little-endian, as a queue.
    fn halfword_queue(parameters: &Vec<u32>) -> (r: VecDeque<u16>)
        requires
            parameters@.len() <= 0x10000,
        ensures
            r@ == spec_halfwords(parameters@),
    {
        let mut source: VecDeque<u16> = VecDeque::new();
        let mut i: usize = 0;
        while i < parameters.len()
            invariant
                i <= parameters@.len() <= 0x10000,
                source@ == Seq::new(2 * i as nat, |j: int| spec_param_half(parameters@, j)),
            decreases parameters@.len() - i,
        {
            let w = parameters[i];
            source.push_back((w & 0xffff) as u16);
            source.push_back(((w >> 16) & 0xffff) as u16);
            proof {
                assert(spec_param_half(parameters@, 2 * i as int) == (w & 0xffff) as u16) by {
                    assert((2 * i as int) / 2 == i && (2 * i as int) % 2 == 0);
                }
                assert(spec_param_half(parameters@, 2 * i as int + 1) == ((w >> 16u32) & 0xffff) as u16) by {
                    assert((2 * i as int + 1) / 2 == i && (2 * i as int + 1) % 2 == 1);
                }
            }
            i = i + 1;
            assert(source@ =~= Seq::new(2 * i as nat, |j: int| spec_param_half(parameters@, j)));
        }
        source
    }

    /// Decodes the macroblocks of `parameters`: one luminance block at 4 and
    /// 8 bits, packed into the output FIFO; at 15 and 24 bits, every colour
    /// macroblock up to the padding, handed out for the colour conversion.
    /// The FIFO-empty flag goes down.
    pub fn decode_macroblock(&mut self, depth: Depth, is_signed: bool, b15: bool, parameters: &Vec<u32>) -> (r: Vec<
        ColourMacroblock,
    >)
        requires
            parameters@.len() <= 0x10000,
        ensures
            spec_decode_macroblock(*old(self), *final(self), depth, is_signed, b15, parameters@, r@),
    {
        let mut source = Self::halfword_queue(parameters);
        let ghost src0 = source@;
        let mut out: Vec<ColourMacroblock> = Vec::new();
        match depth {
            Depth::Bit4 => {
                let block = self.decode_block(&mut source, &self.luminance_table);
                let pixels = level_shift_4bpp(block);
                assert(pixels@ =~= spec_shift4(block@));
                push_packed(&mut self.output_fifo, &pixels);
            },
            Depth::Bit8 => {
                let block = self.decode_block(&mut source, &self.luminance_table);
                let pixels = level_shift_8bpp(block);
                assert(pixels@ =~= spec_shift8(block@));
                push_packed(&mut self.output_fifo, &pixels);
            },
            _ => {
                let ghost lum = self.luminance_table@;
                let ghost chrom = self.chrominance_table@;
                let ghost scale = self.scale_table@;
                assert(out@.map_values(|m: ColourMacroblock| spec_cmb(m)) =~= Seq::<Seq<Seq<i16>>>::empty());
                loop
                    invariant
                        *self == *old(self),
                        lum == self.luminance_table@ && chrom == self.chrominance_table@ && scale == self.scale_table@,
                        out@.map_values(|m: ColourMacroblock| spec_cmb(m)) + spec_colour_blocks(source@, lum, chrom, scale)
                            == spec_colour_blocks(src0, lum, chrom, scale),
                        forall|i: int| 0 <= i < out@.len() ==> spec_flags(#[trigger] out@[i], depth == Depth::Bit24, is_signed, b15),
                    ensures
                        source@.len() == 0,
                    decreases source@.len(),
                {
                    if source.len() == 0 {
                        break;
                    }
                    let ghost before = source@;
                    proof {
                        lemma_skip_padding(before);
                    }
                    while source.len() > 0 && source[0] == PADDING
                        invariant
                            spec_skip_padding(source@) == spec_skip_padding(before),
                            source@.len() <= before.len(),
                        decreases source@.len(),
                    {
                        let _ = source.pop_front();
                    }
                    if source.len() == 0 {
                        proof {
                            lemma_skip_padding_fixed(source@);
                            assert(spec_colour_blocks(before, lum, chrom, scale) =~= Seq::<Seq<Seq<i16>>>::empty());
                            assert(spec_colour_blocks(source@, lum, chrom, scale) =~= Seq::<Seq<Seq<i16>>>::empty());
                        }
                        break;
                    }
                    proof {
                        lemma_skip_padding_fixed(source@);
                        lemma_colour_step(before, lum, chrom, scale);
                    }
                    let cr = self.decode_block(&mut source, &self.chrominance_table);
                    let cb = self.decode_block(&mut source, &self.chrominance_table);
                    let y1 = self.decode_block(&mut source, &self.luminance_table);
                    let y2 = self.decode_block(&mut source, &self.luminance_table);
                    let y3 = self.decode_block(&mut source, &self.luminance_table);
                    let y4 = self.decode_block(&mut source, &self.luminance_table);
                    let ghost prev = out@;
                    let bit24 = match depth {
                        Depth::Bit24 => true,
                        _ => false,
                    };
                    let m = ColourMacroblock { bit24, is_signed, b15, cr, cb, y1, y2, y3, y4 };
                    assert(spec_flags(m, depth == Depth::Bit24, is_signed, b15));
                    out.push(m);
                    proof {
                        lemma_push_flags(prev, m, depth == Depth::Bit24, is_signed, b15);
                        assert(out@.map_values(|m: ColourMacroblock| spec_cmb(m)) =~= prev.map_values(
                            |m: ColourMacroblock| spec_cmb(m),
                        ).push(spec_cmb(m)));
                        assert(spec_cmb(m) =~= seq![cr@, cb@, y1@, y2@, y3@, y4@]);
                    }
                }
                proof {
                    assert(spec_colour_blocks(source@, lum, chrom, scale) =~= Seq::<Seq<Seq<i16>>>::empty());
                }
            },
        }
        self.status = self.status & 0x7fff_ffff;
        out
    }

    /// Runs a complete command: the quantization or scale tables from the
    /// parameters' bytes or halfwords, or a macroblock decode.
    fn handle_command(&mut self, cmd: &Command) -> (r: Vec<ColourMacroblock>)
        requires
            cmd.command_type is DecodeMacroblock ==> cmd.parameters@.len() <= 0x10000,
            !(cmd.command_type is DecodeMacroblock) ==> cmd.parameters@.len() == spec_table_words(cmd.command_type),
        ensures
            spec_handle(*old(self), *final(self), cmd.command_type, cmd.parameters@, r@),
    {
        let ghost p = cmd.parameters@;
        match cmd.command_type {
            CommandType::DecodeMacroblock { depth, is_signed, b15 } => self.decode_macroblock(
                depth,
                is_signed,
                b15,
                &cmd.parameters,
            ),
            CommandType::SetQuantTable(color) => {
                let mut j: usize = 0;
                while j < 64
                    invariant
                        j <= 64,
                        p.len() >= 16,
                        p == cmd.parameters@,
                        *self == (Mdec { luminance_table: self.luminance_table, ..*old(self) }),
                        forall|k: int| 0 <= k < j ==> self.luminance_table@[k] == spec_param_byte(p, k),
                    decreases 64 - j,
                {
                    let sh = (8 * (j % 4)) as u32;
                    self.luminance_table[j] = ((cmd.parameters[j / 4] >> sh) & 0xff) as u8;
                    j = j + 1;
                }
                if color == Color::LuminanceAndColor {
                    let mut j: usize = 0;
                    while j < 64
                        invariant
                            j <= 64,
                            p.len() == 32,
                            p == cmd.parameters@,
                            self.scale_table == old(self).scale_table,
                            self.status == old(self).status && self.control == old(self).control,
                            self.params_remaining == old(self).params_remaining && self.command == old(self).command,
                            self.output_fifo == old(self).output_fifo,
                            forall|k: int| 0 <= k < 64 ==> self.luminance_table@[k] == spec_param_byte(p, k),
                            forall|k: int| 0 <= k < j ==> self.chrominance_table@[k] == spec_param_byte(p, 64 + k),
                        decreases 64 - j,
                    {
                        let sh = (8 * (j % 4)) as u32;
                        self.chrominance_table[j] = ((cmd.parameters[16 + j / 4] >> sh) & 0xff) as u8;
                        assert((64 + j as int) / 4 == 16 + j / 4 && (64 + j as int) % 4 == j % 4);
                        j = j + 1;
                    }
                }
                assert(self.luminance_table@ =~= Seq::new(64, |j: int| spec_param_byte(p, j)));
                assert(color == Color::LuminanceAndColor ==> self.chrominance_table@ =~= Seq::new(
                    64,
                    |j: int| spec_param_byte(p, 64 + j),
                ));
                Vec::new()
            },
            CommandType::SetScaleTable => {
                let mut j: usize = 0;
                while j < 64
                    invariant
                        j <= 64,
                        p.len() == 32,
                        p == cmd.parameters@,
                        *self == (Mdec { scale_table: self.scale_table, ..*old(self) }),
                        forall|k: int| 0 <= k < j ==> self.scale_table@[k] == spec_param_half(p, k) as i16,
                    decreases 64 - j,
                {
                    let w = cmd.parameters[j / 2];
                    let half = if j % 2 == 0 { w & 0xffff } else { (w >> 16) & 0xffff };
                    self.scale_table[j] = (half as u16) as i16;
                    j = j + 1;
                }
                assert(self.scale_table@ =~= Seq::new(64, |j: int| spec_param_half(p, j) as i16));
                Vec::new()
            },
        }
    }

    /// Takes a word written to the command/parameter register.
    pub fn command_or_param(&mut self, val: u32) -> (r: Vec<ColourMacroblock>)
        requires
            old(self).wf(),
        ensures
            final(self).wf(),
            spec_command_or_param(*old(self), *final(self), val, r@),
    {
        let cmd = self.command.take();
        match cmd {
            None => {
                self.decode_command(val);
                Vec::new()
            },
            Some(collected) => {
                let mut collected = collected;
                self.params_remaining = self.params_remaining.wrapping_sub(1);
                collected.parameters.push(val);
                if self.params_remaining == 0 {
                    self.status = self.status & !0x2000_0000u32;
                    self.handle_command(&collected)
                } else {
                    self.command = Some(collected);
                    Vec::new()
                }
            },
        }
    }

    /// Reads a register: the output FIFO at 0, the status at 4 (32-bit
    /// accesses only).
    pub fn load<T: Addressable>(&mut self, offset: u32) -> (r: Result<T, MdecError>)
        ensures
            T::spec_width() != AccessWidth::Word ==> r == Err::<T, MdecError>(MdecError::Width) && *final(self) == *old(self),
            T::spec_width() == AccessWidth::Word && offset != 0 && offset != 4 ==> r == Err::<T, MdecError>(
                MdecError::Register,
            ) && *final(self) == *old(self),
            T::spec_width() == AccessWidth::Word && offset == 4 ==> *final(self) == *old(self) && (r matches Ok(v)
                && v.spec_as_u32() == (old(self).status & !0xffffu32) | (old(self).params_remaining.wrapping_sub(1) as u32)),
            T::spec_width() == AccessWidth::Word && offset == 0 ==> {
                &&& r matches Ok(v) && v.spec_as_u32() == if old(self).output_fifo@.len() > 0 {
                    old(self).output_fifo@[0]
                } else {
                    0xFE00_FE00u32
                }
                &&& final(self).output_fifo@ == if old(self).output_fifo@.len() > 0 {
                    old(self).output_fifo@.drop_first()
                } else {
                    old(self).output_fifo@
                }
                &&& *final(self) == (Mdec {
                    output_fifo: final(self).output_fifo,
                    status: if old(self).output_fifo@.len() <= 1 { old(self).status | 0x8000_0000 } else { old(self).status },
                    ..*old(self)
                })
            },
    {
        if T::width() != AccessWidth::Word {
            return Err(MdecError::Width);
        }
        if offset == 0 {
            let v = self.get_response_data();
            proof {
                crate::bitfacts::lemma_ones_and_u32(v);
            }
            Ok(T::from_u32(v))
        } else if offset == 4 {
            let v = self.get_status();
            proof {
                crate::bitfacts::lemma_ones_and_u32(v);
            }
            Ok(T::from_u32(v))
        } else {
            Err(MdecError::Register)
        }
    }

    /// Writes a register: the command/parameter register at 0, the control
    /// register at 4 (32-bit accesses only). Gives the colour macroblocks
    /// that a decode handed out.
    pub fn store<T: Addressable>(&mut self, offset: u32, value: T) -> (r: Result<Vec<ColourMacroblock>, MdecError>)
        requires
            old(self).wf(),
        ensures
            final(self).wf(),
            T::spec_width() != AccessWidth::Word ==> r == Err::<Vec<ColourMacroblock>, MdecError>(MdecError::Width)
                && *final(self) == *old(self),
            T::spec_width() == AccessWidth::Word && offset != 0 && offset != 4 ==> r == Err::<
                Vec<ColourMacroblock>,
                MdecError,
            >(MdecError::Register) && *final(self) == *old(self),
            T::spec_width() == AccessWidth::Word && offset == 0 ==> (r matches Ok(out) && spec_command_or_param(
                *old(self),
                *final(self),
                value.spec_as_u32(),
                out@,
            )),
            T::spec_width() == AccessWidth::Word && offset == 4 ==> (r matches Ok(out) && out@.len() == 0
                && spec_set_control(*old(self), *final(self), value.spec_as_u32())),
    {
        if T::width() != AccessWidth::Word {
            return Err(MdecError::Width);
        }
        if offset == 0 {
            Ok(self.command_or_param(value.as_u32()))
        } else if offset == 4 {
            self.set_control(value.as_u32());
            Ok(Vec::new())
        } else {
            Err(MdecError::Register)
        }
    }
}

} // verus!
