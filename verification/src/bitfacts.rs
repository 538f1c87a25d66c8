use vstd::prelude::*;

verus! {

/// Masking never gives more than the mask or the value.
pub proof fn lemma_and_le_u32(x: u32, m: u32)
    by (bit_vector)
    ensures
        x & m <= m,
        x & m <= x,
{
}

/// Masking never gives more than the mask or the value.
pub proof fn lemma_and_le_u16(x: u16, m: u16)
    by (bit_vector)
    ensures
        x & m <= m,
        x & m <= x,
{
}

/// Masking never gives more than the mask or the value.
pub proof fn lemma_and_le_usize(x: usize, m: usize)
    by (bit_vector)
    ensures
        x & m <= m,
        x & m <= x,
{
}

/// A RAM word address from a DMA pointer is aligned and inside RAM.
pub proof fn lemma_word_addr(x: u32)
    by (bit_vector)
    ensures
        (x & 0x1ffffc) % 4 == 0,
        x & 0x1ffffc <= 0x1ffffc,
{
}

/// A register offset below 30h belongs to one of three counters.
pub proof fn lemma_counter_of(off: u32)
    by (bit_vector)
    requires
        off < 0x30,
    ensures
        off >> 4 < 3,
{
}

/// Masking all ones gives the mask.
pub proof fn lemma_ones_and_u32(m: u32)
    by (bit_vector)
    ensures
        0xffff_ffffu32 & m == m,
        m & 0xffff_ffffu32 == m,
        0u32 & m == 0,
{
}

/// An aligned access that starts inside a range whose start and length are
/// multiples of 4 ends inside it.
pub proof fn lemma_offset_fits(a: int, start: int, len: int, w: int)
    requires
        w == 1 || w == 2 || w == 4,
        a % w == 0,
        start % 4 == 0,
        len % 4 == 0,
        start <= a < start + len,
    ensures
        a - start + w <= len,
{
    assert((a - start) % w == 0) by {
        if w == 2 {
            assert(start % 2 == 0);
        }
    }
    assert(len % w == 0);
    let q = (a - start) / w;
    let ql = len / w;
    assert(a - start == q * w) by (nonlinear_arith)
        requires
            (a - start) % w == 0,
            w > 0,
            q == (a - start) / w,
    ;
    assert(len == ql * w) by (nonlinear_arith)
        requires
            len % w == 0,
            w > 0,
            ql == len / w,
    ;
    assert(q < ql) by (nonlinear_arith)
        requires
            q * w < ql * w,
            w > 0,
    ;
    assert(q * w + w <= ql * w) by (nonlinear_arith)
        requires
            q < ql,
            w > 0,
    ;
}

} // verus!
