use vstd::prelude::*;

verus! {

/// The geometry transformation engine (coprocessor 2): its registers.
pub struct Gte {
    pub ofx: i32,
    pub ofy: i32,
    pub h: u16,
    pub dqa: i16,
    pub dqb: i32,
    pub zsf3: i16,
    pub zsf4: i16,
    pub matrices: [[[i16; 3]; 3]; 3],
    pub control_vectors: [[i32; 3]; 4],
    pub flags: u32,
    pub v: [[i16; 3]; 4],
    pub mac: [i32; 4],
    pub otz: u16,
    pub rgb: (u8, u8, u8, u8),
    pub ir: [i16; 4],
    pub xy_fifo: [(i16, i16); 4],
    pub z_fifo: [u16; 4],
    pub rgb_fifo: [(u8, u8, u8, u8); 3],
    pub lzcs: u8,
    pub reg_23: u32,
}

/// The four control vectors of the GTE.
#[derive(Clone, Copy, PartialEq, Eq, Structural)]
pub enum ControlVector {
    Translation,
    BackgroundColor,
    FarColor,
    /// Always zero.
    Zero,
}

impl ControlVector {
    pub open spec fn spec_index(self) -> usize {
        match self {
            ControlVector::Translation => 0,
            ControlVector::BackgroundColor => 1,
            ControlVector::FarColor => 2,
            ControlVector::Zero => 3,
        }
    }

    /// Position of this vector in `control_vectors`.
    pub fn index(self) -> (r: usize)
        ensures
            r == self.spec_index(),
    {
        match self {
            ControlVector::Translation => 0,
            ControlVector::BackgroundColor => 1,
            ControlVector::FarColor => 2,
            ControlVector::Zero => 3,
        }
    }
}

impl Default for Gte {
    /// All registers zero, but the leading-zero count input at 32.
    fn default() -> (r: Self)
        ensures
            r.ofx == 0 && r.ofy == 0 && r.h == 0 && r.dqa == 0 && r.dqb == 0 && r.zsf3 == 0 && r.zsf4 == 0,
            r.flags == 0 && r.otz == 0 && r.lzcs == 32 && r.reg_23 == 0,
            r.rgb == (0u8, 0u8, 0u8, 0u8),
            forall|i: int| 0 <= i < 4 ==> #[trigger] r.control_vectors[i]@ == seq![0i32, 0, 0],
            forall|i: int| 0 <= i < 4 ==> #[trigger] r.mac[i] == 0 && r.ir[i] == 0 && r.z_fifo[i] == 0,
    {
        let r = Self {
            ofx: 0,
            ofy: 0,
            h: 0,
            dqa: 0,
            dqb: 0,
            zsf3: 0,
            zsf4: 0,
            matrices: [[[0;3];3];3],
            control_vectors: [[0;3];4],
            flags: 0,
            v: [[0;3];4],
            mac: [0;4],
            otz: 0,
            rgb: (0, 0, 0, 0),
            ir: [0;4],
            xy_fifo: [(0, 0);4],
            z_fifo: [0;4],
            rgb_fifo: [(0, 0, 0, 0);3],
            lzcs: 32,
            reg_23: 0,
        };
        assert(r.control_vectors[0]@ =~= seq![0i32, 0, 0]);
        assert(r.control_vectors[1]@ =~= seq![0i32, 0, 0]);
        assert(r.control_vectors[2]@ =~= seq![0i32, 0, 0]);
        assert(r.control_vectors[3]@ =~= seq![0i32, 0, 0]);
        r
    }
}

/// Control registers that `Gte::control` can read.
pub open spec fn spec_control_readable(reg: u8) -> bool {
    (13 <= reg <= 15) || (21 <= reg <= 31)
}

impl Gte {
    /// Value of control register `reg`: background colour (13-15), far
    /// colour (21-23), screen offset, projection distance, depth cueing,
    /// Z scale factors and the flags.
    pub open spec fn spec_control(&self, reg: u8) -> u32 {
        if 13 <= reg <= 15 {
            self.control_vectors[1][reg - 13] as u32
        } else if 21 <= reg <= 23 {
            self.control_vectors[2][reg - 21] as u32
        } else if reg == 24 {
            self.ofx as u32
        } else if reg == 25 {
            self.ofy as u32
        } else if reg == 26 {
            self.h as i16 as u32
        } else if reg == 27 {
            self.dqa as u32
        } else if reg == 28 {
            self.dqb as u32
        } else if reg == 29 {
            self.zsf3 as u32
        } else if reg == 30 {
            self.zsf4 as u32
        } else {
            self.flags
        }
    }

    /// Reads control register `reg`.
    pub fn control(&self, reg: u8) -> (r: u32)
        requires
            spec_control_readable(reg),
        ensures
            r == self.spec_control(reg),
    {
        if 13 <= reg && reg <= 15 {
            let index = ControlVector::BackgroundColor.index();
            self.control_vectors[index][reg as usize - 13] as u32
        } else if 21 <= reg && reg <= 23 {
            let index = ControlVector::FarColor.index();
            self.control_vectors[index][reg as usize - 21] as u32
        } else if reg == 24 {
            self.ofx as u32
        } else if reg == 25 {
            self.ofy as u32
        } else if reg == 26 {
            self.h as i16 as u32
        } else if reg == 27 {
            self.dqa as u32
        } else if reg == 28 {
            self.dqb as u32
        } else if reg == 29 {
            self.zsf3 as u32
        } else if reg == 30 {
            self.zsf4 as u32
        } else {
            self.flags
        }
    }
}

} // verus!
