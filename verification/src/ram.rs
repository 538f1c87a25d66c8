use vstd::prelude::*;
use crate::addressable::Addressable;
use crate::bytes::{read_le, spec_read_le, spec_write_le, write_le};

verus! {

/// Bytes of main RAM.
pub const RAM_BYTES: usize = 2097152;

/// The 2 MiB of main RAM.
pub struct Ram {
    pub data: Vec<u8>,
}

impl Ram {
    pub open spec fn wf(&self) -> bool {
        self.data@.len() == RAM_BYTES
    }

    /// RAM filled with `0xca`.
    pub fn new() -> (r: Ram)
        ensures
            r.wf(),
            forall|i: int| 0 <= i < RAM_BYTES ==> r.data@[i] == 0xca,
    {
        let mut data: Vec<u8> = Vec::new();
        let mut i: usize = 0;
        while i < RAM_BYTES
            invariant
                i <= RAM_BYTES,
                data@.len() == i,
                forall|j: int| 0 <= j < i ==> data@[j] == 0xca,
            decreases RAM_BYTES - i,
        {
            data.push(0xca);
            i = i + 1;
        }
        Ram { data }
    }

    /// Reads the little-endian value of type `T` at offset `offset`.
    pub fn load<T: Addressable>(&self, offset: u32) -> (r: T)
        requires
            self.wf(),
            offset + T::spec_width().spec_bytes() <= RAM_BYTES,
        ensures
            r.spec_as_u32() == spec_read_le(self.data@, offset as int, T::spec_width()),
    {
        T::from_u32(read_le(&self.data, offset as usize, T::width()))
    }

    /// Writes `value` little-endian at offset `offset`.
    pub fn store<T: Addressable>(&mut self, offset: u32, value: T)
        requires
            old(self).wf(),
            offset + T::spec_width().spec_bytes() <= RAM_BYTES,
        ensures
            final(self).wf(),
            final(self).data@ == spec_write_le(old(self).data@, offset as int, T::spec_width(), value.spec_as_u32()),
    {
        let v = value.as_u32();
        write_le(&mut self.data, offset as usize, T::width(), v);
    }
}

/// Bytes of the BIOS ROM.
pub const BIOS_BYTES: usize = 524288;

/// The 512 KiB BIOS ROM.
pub struct Bios {
    pub data: Vec<u8>,
}

impl Bios {
    pub open spec fn wf(&self) -> bool {
        self.data@.len() == BIOS_BYTES
    }

    /// The BIOS whose image is `data`, when it has the size of the ROM.
    pub fn from_data(data: Vec<u8>) -> (r: Option<Bios>)
        ensures
            r is Some <==> data@.len() == BIOS_BYTES,
            r matches Some(b) ==> b.data@ == data@,
    {
        if data.len() == BIOS_BYTES {
            Some(Bios { data })
        } else {
            None
        }
    }

    /// Reads the little-endian value of type `T` at offset `offset`.
    pub fn load<T: Addressable>(&self, offset: u32) -> (r: T)
        requires
            self.wf(),
            offset + T::spec_width().spec_bytes() <= BIOS_BYTES,
        ensures
            r.spec_as_u32() == spec_read_le(self.data@, offset as int, T::spec_width()),
    {
        T::from_u32(read_le(&self.data, offset as usize, T::width()))
    }
}

} // verus!
