use vstd::prelude::*;

verus! {

/// The seven DMA ports, in register order.
#[derive(Clone, Copy, PartialEq, Eq, Structural, Debug)]
pub enum Port {
    MdecIn,
    MdecOut,
    Gpu,
    CdRom,
    Spu,
    Pio,
    Otc,
}

impl Port {
    pub open spec fn spec_index(self) -> int {
        match self {
            Port::MdecIn => 0,
            Port::MdecOut => 1,
            Port::Gpu => 2,
            Port::CdRom => 3,
            Port::Spu => 4,
            Port::Pio => 5,
            Port::Otc => 6,
        }
    }

    pub open spec fn spec_from_index(i: u8) -> Port {
        if i == 0 {
            Port::MdecIn
        } else if i == 1 {
            Port::MdecOut
        } else if i == 2 {
            Port::Gpu
        } else if i == 3 {
            Port::CdRom
        } else if i == 4 {
            Port::Spu
        } else if i == 5 {
            Port::Pio
        } else {
            Port::Otc
        }
    }

    /// The port of channel `i`.
    pub fn from_index(i: u8) -> (r: Port)
        requires
            i < 7,
        ensures
            r == Self::spec_from_index(i),
            r.spec_index() == i,
    {
        if i == 0 {
            Port::MdecIn
        } else if i == 1 {
            Port::MdecOut
        } else if i == 2 {
            Port::Gpu
        } else if i == 3 {
            Port::CdRom
        } else if i == 4 {
            Port::Spu
        } else if i == 5 {
            Port::Pio
        } else {
            Port::Otc
        }
    }

    /// The channel number of this port.
    pub fn index(self) -> (r: usize)
        ensures
            r == self.spec_index(),
    {
        match self {
            Port::MdecIn => 0,
            Port::MdecOut => 1,
            Port::Gpu => 2,
            Port::CdRom => 3,
            Port::Spu => 4,
            Port::Pio => 5,
            Port::Otc => 6,
        }
    }
}

/// Direction of a transfer, seen from RAM.
#[derive(Clone, Copy, PartialEq, Eq, Structural, Debug)]
pub enum Direction {
    ToRam,
    FromRam,
}

/// Whether the RAM address goes up or down.
#[derive(Clone, Copy, PartialEq, Eq, Structural, Debug)]
pub enum Step {
    Increment,
    Decrement,
}

/// How a transfer is split: at once, in blocks on request, or as a linked
/// list of GPU packets.
#[derive(Clone, Copy, PartialEq, Eq, Structural, Debug)]
pub enum Sync {
    Manual,
    Request,
    LinkedList,
}

/// One DMA channel's registers.
#[derive(Clone, Copy)]
pub struct Channel {
    pub enable: bool,
    pub direction: Direction,
    pub step: Step,
    pub sync: Sync,
    pub trigger: bool,
    pub chop: bool,
    pub chop_dma_sz: u8,
    pub chop_cpu_sz: u8,
    pub dummy: u8,
    pub base: u32,
    pub block_size: u16,
    pub block_count: u16,
}

/// The channel control register value of `c`.
pub open spec fn spec_channel_control(c: Channel) -> u32 {
    (if c.direction == Direction::FromRam { 1u32 } else { 0u32 }) | (if c.step == Step::Decrement { 2u32 } else { 0u32 })
        | (if c.chop { 0x100u32 } else { 0u32 }) | ((match c.sync {
        Sync::Manual => 0u32,
        Sync::Request => 1u32,
        Sync::LinkedList => 2u32,
    }) << 9u32) | (((c.chop_dma_sz & 7) as u32) << 16u32) | (((c.chop_cpu_sz & 7) as u32) << 20u32) | (if c.enable {
        0x100_0000u32
    } else {
        0u32
    }) | (if c.trigger { 0x1000_0000u32 } else { 0u32 }) | (((c.dummy & 3) as u32) << 29u32)
}

/// A channel after its control register was written with `v`.
pub open spec fn spec_set_channel_control(c: Channel, v: u32) -> Option<Channel> {
    let s = (v >> 9u32) & 3;
    if s == 3 {
        None
    } else {
        Some(Channel {
            direction: if v & 1 != 0 { Direction::FromRam } else { Direction::ToRam },
            step: if (v >> 1u32) & 1 != 0 { Step::Decrement } else { Step::Increment },
            chop: (v >> 8u32) & 1 != 0,
            sync: if s == 0 { Sync::Manual } else if s == 1 { Sync::Request } else { Sync::LinkedList },
            chop_dma_sz: ((v >> 16u32) & 7) as u8,
            chop_cpu_sz: ((v >> 20u32) & 7) as u8,
            enable: (v >> 24u32) & 1 != 0,
            trigger: (v >> 28u32) & 1 != 0,
            dummy: ((v >> 29u32) & 3) as u8,
            ..c
        })
    }
}

impl Channel {
    /// A disabled channel with every register clear.
    pub fn new() -> (r: Channel)
        ensures
            !r.enable && !r.trigger && r.base == 0 && r.block_size == 0 && r.block_count == 0,
            r.direction == Direction::ToRam && r.step == Step::Increment && r.sync == Sync::Manual,
    {
        Channel {
            enable: false,
            direction: Direction::ToRam,
            step: Step::Increment,
            sync: Sync::Manual,
            trigger: false,
            chop: false,
            chop_dma_sz: 0,
            chop_cpu_sz: 0,
            dummy: 0,
            base: 0,
            block_size: 0,
            block_count: 0,
        }
    }

    /// The control register.
    pub fn control(&self) -> (r: u32)
        ensures
            r == spec_channel_control(*self),
    {
        let d: u32 = if self.direction == Direction::FromRam { 1 } else { 0 };
        let st: u32 = if self.step == Step::Decrement { 2 } else { 0 };
        let ch: u32 = if self.chop { 0x100 } else { 0 };
        let sy: u32 = match self.sync {
            Sync::Manual => 0,
            Sync::Request => 1,
            Sync::LinkedList => 2,
        };
        let en: u32 = if self.enable { 0x100_0000 } else { 0 };
        let tr: u32 = if self.trigger { 0x1000_0000 } else { 0 };
        d | st | ch | (sy << 9) | (((self.chop_dma_sz & 7) as u32) << 16) | (((self.chop_cpu_sz & 7) as u32) << 20) | en
            | tr | (((self.dummy & 3) as u32) << 29)
    }

    /// Writes the control register; `false`, changing nothing, for the
    /// reserved sync mode 3.
    pub fn set_control(&mut self, v: u32) -> (r: bool)
        ensures
            r == spec_set_channel_control(*old(self), v) is Some,
            r ==> spec_set_channel_control(*old(self), v) == Some(*final(self)),
            !r ==> *final(self) == *old(self),
    {
        let s = (v >> 9) & 3;
        if s == 3 {
            return false;
        }
        self.direction = if v & 1 != 0 { Direction::FromRam } else { Direction::ToRam };
        self.step = if (v >> 1) & 1 != 0 { Step::Decrement } else { Step::Increment };
        self.chop = (v >> 8) & 1 != 0;
        self.sync = if s == 0 { Sync::Manual } else if s == 1 { Sync::Request } else { Sync::LinkedList };
        proof {
            crate::bitfacts::lemma_and_le_u32(v >> 16, 7);
            crate::bitfacts::lemma_and_le_u32(v >> 20, 7);
            crate::bitfacts::lemma_and_le_u32(v >> 29, 3);
        }
        self.chop_dma_sz = ((v >> 16) & 7) as u8;
        self.chop_cpu_sz = ((v >> 20) & 7) as u8;
        self.enable = (v >> 24) & 1 != 0;
        self.trigger = (v >> 28) & 1 != 0;
        self.dummy = ((v >> 29) & 3) as u8;
        true
    }

    /// The base address register.
    pub fn base(&self) -> (r: u32)
        ensures
            r == self.base,
    {
        self.base
    }

    /// Writes the base address (24 bits).
    pub fn set_base(&mut self, v: u32)
        ensures
            *final(self) == (Channel { base: v & 0xff_ffff, ..*old(self) }),
    {
        self.base = v & 0xff_ffff;
    }

    /// The block control register: block count above block size.
    pub fn block_control(&self) -> (r: u32)
        ensures
            r == ((self.block_count as u32) << 16u32) | (self.block_size as u32),
    {
        ((self.block_count as u32) << 16) | (self.block_size as u32)
    }

    /// Writes the block control register.
    pub fn set_block_control(&mut self, v: u32)
        ensures
            *final(self) == (Channel { block_size: v as u16, block_count: (v >> 16u32) as u16, ..*old(self) }),
    {
        self.block_size = v as u16;
        self.block_count = (v >> 16) as u16;
    }

    pub open spec fn spec_active(&self) -> bool {
        self.enable && (if self.sync == Sync::Manual { self.trigger } else { true })
    }

    /// Whether a transfer is requested: enabled, and for manual sync also
    /// triggered.
    pub fn active(&self) -> (r: bool)
        ensures
            r == self.spec_active(),
    {
        let trigger = if self.sync == Sync::Manual { self.trigger } else { true };
        self.enable && trigger
    }

    pub fn direction(&self) -> (r: Direction)
        ensures
            r == self.direction,
    {
        self.direction
    }

    pub fn step(&self) -> (r: Step)
        ensures
            r == self.step,
    {
        self.step
    }

    pub fn sync(&self) -> (r: Sync)
        ensures
            r == self.sync,
    {
        self.sync
    }

    pub open spec fn spec_transfer_size(&self) -> Option<u32> {
        match self.sync {
            Sync::Manual => Some(self.block_size as u32),
            Sync::Request => Some((self.block_size * self.block_count) as u32),
            Sync::LinkedList => None,
        }
    }

    /// Words to move in a block transfer; none for a linked list.
    pub fn transfer_size(&self) -> (r: Option<u32>)
        ensures
            r == self.spec_transfer_size(),
    {
        match self.sync {
            Sync::Manual => Some(self.block_size as u32),
            Sync::Request => {
                assert((self.block_size as int) * (self.block_count as int) <= 0xffff * 0xffff) by (nonlinear_arith)
                    requires
                        self.block_size <= 0xffff,
                        self.block_count <= 0xffff,
                ;
                Some((self.block_size as u32) * (self.block_count as u32))
            },
            Sync::LinkedList => None,
        }
    }

    /// Ends the transfer: the channel is disabled and untriggered.
    pub fn done(&mut self)
        ensures
            *final(self) == (Channel { enable: false, trigger: false, ..*old(self) }),
    {
        self.enable = false;
        self.trigger = false;
    }
}

/// The DMA controller: control, interrupt registers and the channels.
pub struct Dma {
    pub control: u32,
    pub irq_en: bool,
    pub channel_irq_en: u8,
    pub channel_irq_flags: u8,
    pub force_irq: bool,
    pub irq_dummy: u8,
    pub channels: [Channel; 7],
}

impl Dma {
    /// The controller at reset: priorities 7654321h, no interrupt.
    pub fn new() -> (r: Dma)
        ensures
            r.control == 0x0765_4321,
            !r.irq_en && r.channel_irq_en == 0 && r.channel_irq_flags == 0 && !r.force_irq && r.irq_dummy == 0,
            forall|i: int| 0 <= i < 7 ==> !(#[trigger] r.channels[i]).enable,
    {
        let c = Channel::new();
        Dma {
            control: 0x0765_4321,
            irq_en: false,
            channel_irq_en: 0,
            channel_irq_flags: 0,
            force_irq: false,
            irq_dummy: 0,
            channels: [c, c, c, c, c, c, c],
        }
    }

    /// DPCR.
    pub fn control(&self) -> (r: u32)
        ensures
            r == self.control,
    {
        self.control
    }

    /// Writes DPCR.
    pub fn set_control(&mut self, v: u32)
        ensures
            final(self).control == v,
            final(self).channels == old(self).channels,
            final(self).irq_en == old(self).irq_en && final(self).channel_irq_en == old(self).channel_irq_en,
            final(self).channel_irq_flags == old(self).channel_irq_flags,
            final(self).force_irq == old(self).force_irq && final(self).irq_dummy == old(self).irq_dummy,
    {
        self.control = v;
    }

    pub open spec fn spec_irq(&self) -> bool {
        self.force_irq || (self.irq_en && (self.channel_irq_flags & self.channel_irq_en) != 0)
    }

    pub open spec fn spec_interrupt(&self) -> u32 {
        ((self.irq_dummy & 0x3f) as u32) | (if self.force_irq { 0x8000u32 } else { 0u32 }) | (((self.channel_irq_en & 0x7f)
            as u32) << 16u32) | (if self.irq_en { 0x80_0000u32 } else { 0u32 }) | (((self.channel_irq_flags & 0x7f) as u32)
            << 24u32) | (if self.spec_irq() { 0x8000_0000u32 } else { 0u32 })
    }

    /// DICR: interrupt enables, flags and the master flag.
    pub fn interrupt(&self) -> (r: u32)
        ensures
            r == self.spec_interrupt(),
    {
        let irq = self.force_irq || (self.irq_en && (self.channel_irq_flags & self.channel_irq_en) != 0);
        ((self.irq_dummy & 0x3f) as u32) | (if self.force_irq { 0x8000u32 } else { 0u32 }) | (((self.channel_irq_en & 0x7f)
            as u32) << 16) | (if self.irq_en { 0x80_0000u32 } else { 0u32 }) | (((self.channel_irq_flags & 0x7f) as u32)
            << 24) | (if irq { 0x8000_0000u32 } else { 0u32 })
    }

    /// Writes DICR: the flags written as 1 are acknowledged.
    pub fn set_interrupt(&mut self, v: u32)
        ensures
            final(self).irq_dummy == (v & 0x3f) as u8,
            final(self).force_irq == ((v >> 15u32) & 1 != 0),
            final(self).channel_irq_en == ((v >> 16u32) & 0x7f) as u8,
            final(self).irq_en == ((v >> 23u32) & 1 != 0),
            final(self).channel_irq_flags == old(self).channel_irq_flags & !(((v >> 24u32) & 0x3f) as u8),
            final(self).control == old(self).control && final(self).channels == old(self).channels,
    {
        proof {
            crate::bitfacts::lemma_and_le_u32(v, 0x3f);
            crate::bitfacts::lemma_and_le_u32(v >> 16, 0x7f);
            crate::bitfacts::lemma_and_le_u32(v >> 24, 0x3f);
        }
        self.irq_dummy = (v & 0x3f) as u8;
        self.force_irq = (v >> 15) & 1 != 0;
        self.channel_irq_en = ((v >> 16) & 0x7f) as u8;
        self.irq_en = (v >> 23) & 1 != 0;
        let ack = ((v >> 24) & 0x3f) as u8;
        self.channel_irq_flags = self.channel_irq_flags & !ack;
    }

    /// The registers of the channel of `port`.
    pub fn channel(&self, port: Port) -> (r: Channel)
        ensures
            r == self.channels[port.spec_index()],
    {
        self.channels[port.index()]
    }
}

} // verus!
