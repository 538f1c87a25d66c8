use vstd::prelude::*;

verus! {

/// Width of a bus access.
#[derive(PartialEq, Eq, Structural, Debug, Clone, Copy)]
pub enum AccessWidth {
    Byte,
    Halfword,
    Word,
}

impl AccessWidth {
    /// Number of bytes moved by an access of this width.
    pub open spec fn spec_bytes(self) -> nat {
        match self {
            AccessWidth::Byte => 1,
            AccessWidth::Halfword => 2,
            AccessWidth::Word => 4,
        }
    }

    /// Largest value that fits in an access of this width.
    pub open spec fn spec_mask(self) -> u32 {
        match self {
            AccessWidth::Byte => 0xff,
            AccessWidth::Halfword => 0xffff,
            AccessWidth::Word => 0xffff_ffff,
        }
    }

    /// Number of bytes moved by an access of this width.
    pub fn bytes(&self) -> (r: u32)
        ensures
            r == self.spec_bytes(),
    {
        match self {
            AccessWidth::Byte => 1,
            AccessWidth::Halfword => 2,
            AccessWidth::Word => 4,
        }
    }
}

/// A value that the memory bus can move: a byte, a halfword or a word.
pub trait Addressable: Sized + Copy {
    /// Width of this kind of value.
    spec fn spec_width() -> AccessWidth;

    /// The value, zero-extended to 32 bits.
    spec fn spec_as_u32(self) -> u32;

    fn width() -> (r: AccessWidth)
        ensures
            r == Self::spec_width(),
    ;

    /// Truncates `x` to the width of this kind of value.
    fn from_u32(x: u32) -> (r: Self)
        ensures
            r.spec_as_u32() == x & Self::spec_width().spec_mask(),
    ;

    fn as_u32(&self) -> (r: u32)
        ensures
            r == self.spec_as_u32(),
            r & Self::spec_width().spec_mask() == r,
    ;
}

impl Addressable for u8 {
    open spec fn spec_width() -> AccessWidth {
        AccessWidth::Byte
    }

    open spec fn spec_as_u32(self) -> u32 {
        self as u32
    }

    fn width() -> (r: AccessWidth) {
        AccessWidth::Byte
    }

    fn from_u32(x: u32) -> (r: Self) {
        assert((x as u8) as u32 == x & 0xff) by (bit_vector);
        x as u8
    }

    fn as_u32(&self) -> (r: u32) {
        let v = *self;
        assert((v as u32) & 0xff == v as u32) by (bit_vector);
        v as u32
    }
}

impl Addressable for u16 {
    open spec fn spec_width() -> AccessWidth {
        AccessWidth::Halfword
    }

    open spec fn spec_as_u32(self) -> u32 {
        self as u32
    }

    fn width() -> (r: AccessWidth) {
        AccessWidth::Halfword
    }

    fn from_u32(x: u32) -> (r: Self) {
        assert((x as u16) as u32 == x & 0xffff) by (bit_vector);
        x as u16
    }

    fn as_u32(&self) -> (r: u32) {
        let v = *self;
        assert((v as u32) & 0xffff == v as u32) by (bit_vector);
        v as u32
    }
}

impl Addressable for u32 {
    open spec fn spec_width() -> AccessWidth {
        AccessWidth::Word
    }

    open spec fn spec_as_u32(self) -> u32 {
        self
    }

    fn width() -> (r: AccessWidth) {
        AccessWidth::Word
    }

    fn from_u32(x: u32) -> (r: Self) {
        assert(x & 0xffff_ffff == x) by (bit_vector);
        x
    }

    fn as_u32(&self) -> (r: u32) {
        let v = *self;
        assert(v & 0xffff_ffff == v) by (bit_vector);
        v
    }
}

} // verus!
