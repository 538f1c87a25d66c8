use vstd::prelude::*;
use crate::addressable::AccessWidth;

verus! {

/// The little-endian value of the `w`-wide access at `a` of `s`.
pub open spec fn spec_read_le(s: Seq<u8>, a: int, w: AccessWidth) -> u32 {
    match w {
        AccessWidth::Byte => s[a] as u32,
        AccessWidth::Halfword => (s[a] as u32) | ((s[a + 1] as u32) << 8u32),
        AccessWidth::Word => (s[a] as u32) | ((s[a + 1] as u32) << 8u32) | ((s[a + 2] as u32) << 16u32) | ((
        s[a + 3] as u32) << 24u32),
    }
}

/// `s` after a little-endian `w`-wide write of `v` at `a`.
pub open spec fn spec_write_le(s: Seq<u8>, a: int, w: AccessWidth, v: u32) -> Seq<u8> {
    match w {
        AccessWidth::Byte => s.update(a, v as u8),
        AccessWidth::Halfword => s.update(a, v as u8).update(a + 1, (v >> 8u32) as u8),
        AccessWidth::Word => s.update(a, v as u8).update(a + 1, (v >> 8u32) as u8).update(a + 2, (v >> 16u32) as u8).update(
            a + 3,
            (v >> 24u32) as u8,
        ),
    }
}

/// A value put together from one, two or four little-endian bytes fits in
/// that many bytes.
proof fn lemma_le_value_fits(b0: u8, b1: u8, b2: u8, b3: u8)
    by (bit_vector)
    ensures
        (b0 as u32) & 0xff == b0 as u32,
        ((b0 as u32) | ((b1 as u32) << 8u32)) & 0xffff == (b0 as u32) | ((b1 as u32) << 8u32),
        ((b0 as u32) | ((b1 as u32) << 8u32) | ((b2 as u32) << 16u32) | ((b3 as u32) << 24u32)) & 0xffff_ffff == (b0 as u32)
            | ((b1 as u32) << 8u32) | ((b2 as u32) << 16u32) | ((b3 as u32) << 24u32),
{
}

/// The little-endian bytes of `v` put back together give its low byte,
/// halfword and word.
proof fn lemma_le_bytes_of(v: u32)
    by (bit_vector)
    ensures
        (v as u8) as u32 == v & 0xff,
        ((v as u8) as u32) | ((((v >> 8u32) as u8) as u32) << 8u32) == v & 0xffff,
        ((v as u8) as u32) | ((((v >> 8u32) as u8) as u32) << 8u32) | ((((v >> 16u32) as u8) as u32) << 16u32) | ((((v
            >> 24u32) as u8) as u32) << 24u32) == v & 0xffff_ffff,
{
}

/// Reads the `w`-wide little-endian value at `a`.
pub fn read_le(s: &Vec<u8>, a: usize, w: AccessWidth) -> (r: u32)
    requires
        a + w.spec_bytes() <= s@.len(),
    ensures
        r == spec_read_le(s@, a as int, w),
        r & w.spec_mask() == r,
{
    let _len = s.len();
    match w {
        AccessWidth::Byte => {
            let b0 = s[a];
            proof {
                lemma_le_value_fits(b0, 0, 0, 0);
            }
            b0 as u32
        },
        AccessWidth::Halfword => {
            let b0 = s[a];
            let b1 = s[a + 1];
            let r = (b0 as u32) | ((b1 as u32) << 8);
            proof {
                lemma_le_value_fits(b0, b1, 0, 0);
            }
            r
        },
        AccessWidth::Word => {
            let b0 = s[a];
            let b1 = s[a + 1];
            let b2 = s[a + 2];
            let b3 = s[a + 3];
            let r = (b0 as u32) | ((b1 as u32) << 8) | ((b2 as u32) << 16) | ((b3 as u32) << 24);
            proof {
                lemma_le_value_fits(b0, b1, b2, b3);
            }
            r
        },
    }
}

/// Writes `v`, truncated to width `w`, little-endian at `a`.
pub fn write_le(s: &mut Vec<u8>, a: usize, w: AccessWidth, v: u32)
    requires
        a + w.spec_bytes() <= old(s)@.len(),
    ensures
        final(s)@ == spec_write_le(old(s)@, a as int, w, v),
{
    let _len = s.len();
    match w {
        AccessWidth::Byte => {
            s.set(a, v as u8);
        },
        AccessWidth::Halfword => {
            s.set(a, v as u8);
            s.set(a + 1, (v >> 8) as u8);
        },
        AccessWidth::Word => {
            s.set(a, v as u8);
            s.set(a + 1, (v >> 8) as u8);
            s.set(a + 2, (v >> 16) as u8);
            s.set(a + 3, (v >> 24) as u8);
        },
    }
}

/// A read of what a write of the same width at the same place stored gives
/// back the written value, truncated to the width.
pub proof fn lemma_read_after_write(s: Seq<u8>, a: int, w: AccessWidth, v: u32)
    requires
        0 <= a,
        a + w.spec_bytes() <= s.len(),
    ensures
        spec_read_le(spec_write_le(s, a, w, v), a, w) == v & w.spec_mask(),
{
    let t = spec_write_le(s, a, w, v);
    match w {
        AccessWidth::Byte => {
            lemma_le_bytes_of(v);
        },
        AccessWidth::Halfword => {
            assert(t[a] == v as u8 && t[a + 1] == (v >> 8u32) as u8);
            lemma_le_bytes_of(v);
        },
        AccessWidth::Word => {
            assert(t[a] == v as u8 && t[a + 1] == (v >> 8u32) as u8 && t[a + 2] == (v >> 16u32) as u8 && t[a + 3] == (v
                >> 24u32) as u8);
            lemma_le_bytes_of(v);
        },
    }
}

/// A write leaves every byte outside the written range unchanged.
pub proof fn lemma_write_frame(s: Seq<u8>, a: int, w: AccessWidth, v: u32, i: int)
    requires
        0 <= a,
        a + w.spec_bytes() <= s.len(),
        0 <= i < s.len(),
        i < a || i >= a + w.spec_bytes(),
    ensures
        spec_write_le(s, a, w, v)[i] == s[i],
        spec_write_le(s, a, w, v).len() == s.len(),
{
}

} // verus!
