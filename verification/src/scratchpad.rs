use vstd::prelude::*;
use crate::addressable::{AccessWidth, Addressable};
use crate::bytes::{read_le, spec_read_le, spec_write_le, write_le};

verus! {

/// Bytes of scratchpad RAM.
pub const SCRATCHPAD_BYTES: usize = 1024;

/// The 1 KiB scratchpad (data cache used as fast RAM).
pub struct Scratchpad {
    pub data: Vec<u8>,
}

impl Scratchpad {
    pub open spec fn wf(&self) -> bool {
        self.data@.len() == SCRATCHPAD_BYTES
    }

    /// A scratchpad filled with `0xca`.
    pub fn new() -> (r: Scratchpad)
        ensures
            r.wf(),
            forall|i: int| 0 <= i < SCRATCHPAD_BYTES ==> r.data@[i] == 0xca,
    {
        let mut data: Vec<u8> = Vec::new();
        let mut i: usize = 0;
        while i < SCRATCHPAD_BYTES
            invariant
                i <= SCRATCHPAD_BYTES,
                data@.len() == i,
                forall|j: int| 0 <= j < i ==> data@[j] == 0xca,
            decreases SCRATCHPAD_BYTES - i,
        {
            data.push(0xca);
            i = i + 1;
        }
        Scratchpad { data }
    }

    /// Reads the little-endian value of type `T` at offset `address`.
    pub fn load<T: Addressable>(&self, address: u32) -> (r: T)
        requires
            self.wf(),
            address + T::spec_width().spec_bytes() <= SCRATCHPAD_BYTES,
        ensures
            r.spec_as_u32() == spec_read_le(self.data@, address as int, T::spec_width()),
    {
        let w = T::width();
        let v = read_le(&self.data, address as usize, w);
        T::from_u32(v)
    }

    /// Writes `value` little-endian at offset `address`.
    pub fn store<T: Addressable>(&mut self, address: u32, value: T)
        requires
            old(self).wf(),
            address + T::spec_width().spec_bytes() <= SCRATCHPAD_BYTES,
        ensures
            final(self).wf(),
            final(self).data@ == spec_write_le(old(self).data@, address as int, T::spec_width(), value.spec_as_u32()),
    {
        let w = T::width();
        let v = value.as_u32();
        write_le(&mut self.data, address as usize, w, v);
    }
}

} // verus!
