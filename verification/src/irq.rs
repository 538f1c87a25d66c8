use vstd::prelude::*;
use crate::addressable::{AccessWidth, Addressable};

verus! {

/// `x` with bit `n` set to `v`.
pub open spec fn with_bit(x: u32, n: u32, v: bool) -> u32 {
    if v {
        x | (1u32 << n)
    } else {
        x & !(1u32 << n)
    }
}

/// Bit `n` of `x`.
pub open spec fn bit(x: u32, n: u32) -> bool {
    (x >> n) & 1 == 1
}

/// Sets bit `n` of `x` to `v`.
pub fn set_bit_u32(x: u32, n: u32, v: bool) -> (r: u32)
    requires
        n < 32,
    ensures
        r == with_bit(x, n, v),
        bit(r, n) == v,
        forall|m: u32| m < 32 && m != n ==> bit(r, m) == bit(x, m),
{
    let r = if v {
        x | (1u32 << n)
    } else {
        x & !(1u32 << n)
    };
    assert(bit(r, n) == v && forall|m: u32| m < 32 && m != n ==> bit(r, m) == bit(x, m))
        by (bit_vector)
        requires
            n < 32,
            r == if v { x | (1u32 << n) } else { x & !(1u32 << n) },
    ;
    r
}

/// The interrupt status register (I_STAT): one bit per interrupt source.
#[derive(Clone, Copy)]
pub struct InterruptStatus(pub u32);

impl InterruptStatus {
    pub fn new() -> (r: Self)
        ensures
            r.0 == 0,
    {
        InterruptStatus(0)
    }

    fn set_line(&mut self, n: u32, v: bool)
        requires
            n < 11,
        ensures
            final(self).0 == with_bit(old(self).0, n, v),
    {
        self.0 = set_bit_u32(self.0, n, v);
    }

    /// IRQ0, vertical blank.
    pub fn set_vblank(&mut self, v: bool)
        ensures
            final(self).0 == with_bit(old(self).0, 0, v),
    {
        self.set_line(0, v)
    }

    /// IRQ1, requested by the GPU.
    pub fn set_gpu(&mut self, v: bool)
        ensures
            final(self).0 == with_bit(old(self).0, 1, v),
    {
        self.set_line(1, v)
    }

    /// IRQ2, CD-ROM controller.
    pub fn set_cdrom(&mut self, v: bool)
        ensures
            final(self).0 == with_bit(old(self).0, 2, v),
    {
        self.set_line(2, v)
    }

    /// IRQ3, DMA.
    pub fn set_dma(&mut self, v: bool)
        ensures
            final(self).0 == with_bit(old(self).0, 3, v),
    {
        self.set_line(3, v)
    }

    /// IRQ4, timer 0.
    pub fn set_tmr0(&mut self, v: bool)
        ensures
            final(self).0 == with_bit(old(self).0, 4, v),
    {
        self.set_line(4, v)
    }

    /// IRQ5, timer 1.
    pub fn set_tmr1(&mut self, v: bool)
        ensures
            final(self).0 == with_bit(old(self).0, 5, v),
    {
        self.set_line(5, v)
    }

    /// IRQ6, timer 2.
    pub fn set_tmr2(&mut self, v: bool)
        ensures
            final(self).0 == with_bit(old(self).0, 6, v),
    {
        self.set_line(6, v)
    }

    /// IRQ7, controller and memory card byte received.
    pub fn set_ctl_mem(&mut self, v: bool)
        ensures
            final(self).0 == with_bit(old(self).0, 7, v),
    {
        self.set_line(7, v)
    }

    /// IRQ8, serial port.
    pub fn set_sio(&mut self, v: bool)
        ensures
            final(self).0 == with_bit(old(self).0, 8, v),
    {
        self.set_line(8, v)
    }

    /// IRQ9, sound processor.
    pub fn set_spu(&mut self, v: bool)
        ensures
            final(self).0 == with_bit(old(self).0, 9, v),
    {
        self.set_line(9, v)
    }

    /// IRQ10, lightpen.
    pub fn set_ctl_light(&mut self, v: bool)
        ensures
            final(self).0 == with_bit(old(self).0, 10, v),
    {
        self.set_line(10, v)
    }
}

/// The interrupt controller: status (I_STAT) and mask (I_MASK) registers.
pub struct InterruptController {
    /// Read: status; written: acknowledged by and-ing.
    pub status: InterruptStatus,
    /// Written: which interrupts may reach the CPU.
    pub mask: u32,
}

impl InterruptController {
    pub open spec fn spec_mask(&self) -> u32 {
        self.mask
    }

    /// A controller with no interrupt raised and all interrupts masked.
    pub fn new() -> (r: Self)
        ensures
            r.status.0 == 0,
            r.spec_mask() == 0,
    {
        InterruptController { status: InterruptStatus::new(), mask: 0 }
    }

    /// Whether an unmasked interrupt is raised.
    pub fn pending(&self) -> (r: bool)
        ensures
            r == (self.status.0 & self.spec_mask() != 0),
    {
        self.status.0 & self.mask != 0
    }

    /// Offsets that the controller answers at.
    pub open spec fn valid_offset(offset: u32) -> bool {
        offset == 0 || offset == 4
    }

    /// Reads the status (offset 0) or the mask (offset 4).
    pub fn load<T: Addressable>(&self, offset: u32) -> (r: T)
        requires
            Self::valid_offset(offset),
        ensures
            r.spec_as_u32() == (if offset == 0 { self.status.0 } else { self.spec_mask() })
                & T::spec_width().spec_mask(),
    {
        if offset == 0 {
            T::from_u32(self.status.0)
        } else {
            T::from_u32(self.mask)
        }
    }

    /// Acknowledges interrupts (offset 0: status is and-ed with the value)
    /// or sets the mask (offset 4).
    pub fn store<T: Addressable>(&mut self, offset: u32, value: T)
        requires
            Self::valid_offset(offset),
        ensures
            offset == 0 ==> final(self).status.0 == old(self).status.0 & value.spec_as_u32()
                && final(self).spec_mask() == old(self).spec_mask(),
            offset == 4 ==> final(self).spec_mask() == value.spec_as_u32()
                && final(self).status.0 == old(self).status.0,
    {
        if offset == 0 {
            self.status.0 = self.status.0 & value.as_u32();
        } else {
            self.mask = value.as_u32();
        }
    }
}

} // verus!
