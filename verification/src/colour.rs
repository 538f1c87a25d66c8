use vstd::prelude::*;

verus! {

/// A vertex in GPU coordinates.
#[derive(Debug, Clone, Copy, PartialEq, Eq, Structural)]
pub struct Vertex {
    pub x: i32,
    pub y: i32,
}

/// Value of a 5-bit colour channel scaled to 8 bits: `c * 255 / 31`, rounded
/// to the nearest integer (the quotient is never half-way between two).
pub open spec fn spec_5bit_to_8bit(c: u16) -> u8 {
    ((c * 255 + 15) / 31) as u8
}

/// Scales a 5-bit colour channel to 8 bits, rounding to the nearest value.
pub fn convert_5bit_to_8bit(color: u16) -> (r: u8)
    requires
        color < 32,
    ensures
        r == spec_5bit_to_8bit(color),
        r as int * 31 - color as int * 255 <= 15,
        color as int * 255 - r as int * 31 <= 15,
{
    ((color * 255 + 15) / 31) as u8
}

/// `v + offset`, clamped to `0..=255`.
pub open spec fn spec_saturating_add_signed(v: u8, offset: int) -> u8 {
    let s = v + offset;
    if s < 0 {
        0
    } else if s > 255 {
        255
    } else {
        s as u8
    }
}

/// `u8::saturating_add_signed`: `v + offset`, clamped to `0..=255`.
pub fn saturating_add_signed(v: u8, offset: i8) -> (r: u8)
    ensures
        r == spec_saturating_add_signed(v, offset as int),
{
    let s: i16 = v as i16 + offset as i16;
    if s < 0 {
        0
    } else if s > 255 {
        255
    } else {
        s as u8
    }
}

/// Entry `(y, x)` of the 4x4 ordered-dithering matrix.
pub open spec fn spec_dither_offset(y: int, x: int) -> int {
    if y == 0 {
        if x == 0 { -4 } else if x == 1 { 0 } else if x == 2 { -3 } else { 1 }
    } else if y == 1 {
        if x == 0 { 2 } else if x == 1 { -2 } else if x == 2 { 3 } else { 1 }
    } else if y == 2 {
        if x == 0 { -3 } else if x == 1 { 1 } else if x == 2 { -4 } else { 0 }
    } else {
        if x == 0 { 3 } else if x == 1 { -1 } else if x == 2 { 2 } else { -2 }
    }
}

/// Dithering offset for pixel `(x, y)`: entry `(y & 3, x & 3)` of the matrix.
pub fn dither_offset(x: i32, y: i32) -> (r: i8)
    ensures
        r as int == spec_dither_offset((y & 3) as int, (x & 3) as int),
{
    let yy = y & 3;
    let xx = x & 3;
    if yy == 0 {
        if xx == 0 { -4 } else if xx == 1 { 0 } else if xx == 2 { -3 } else { 1 }
    } else if yy == 1 {
        if xx == 0 { 2 } else if xx == 1 { -2 } else if xx == 2 { 3 } else { 1 }
    } else if yy == 2 {
        if xx == 0 { -3 } else if xx == 1 { 1 } else if xx == 2 { -4 } else { 0 }
    } else {
        if xx == 0 { 3 } else if xx == 1 { -1 } else if xx == 2 { 2 } else { -2 }
    }
}

/// Channel `a` modulated by `b`: `a * b / 128`, at most 255.
pub open spec fn spec_modulate(a: u8, b: u8) -> u8 {
    let p = (a * b) / 128;
    if p > 255 {
        255
    } else {
        p as u8
    }
}

/// A colour as the GPU handles it: 8 bits per channel and the mask bit `m`.
#[derive(Clone, Copy, PartialEq, Eq, Structural, Debug)]
pub struct Colour {
    pub r: u8,
    pub g: u8,
    pub b: u8,
    pub m: u8,
}

/// Semi-transparency of one channel `f` over the background `b`, in mode
/// `mode` (0: B/2+F/2, 1: B+F, 2: B-F, 3: B+F/4), clamped to `0..=255`.
pub open spec fn spec_blend_channel(f: u8, b: u8, mode: u8) -> u8 {
    let v: int = if mode == 0 {
        f / 2 + b / 2
    } else if mode == 1 {
        f + b
    } else if mode == 2 {
        b - f
    } else {
        f / 4 + b
    };
    if v < 0 {
        0
    } else if v > 255 {
        255
    } else {
        v as u8
    }
}

/// Value of a 15-bit pixel `lsb | msb << 8` as a colour.
pub open spec fn spec_colour_from_pixel(pixel: u16) -> Colour {
    Colour {
        r: spec_5bit_to_8bit(pixel & 0x1f),
        g: spec_5bit_to_8bit((pixel >> 5) & 0x1f),
        b: spec_5bit_to_8bit((pixel >> 10) & 0x1f),
        m: (pixel >> 15) as u8,
    }
}

/// The 15-bit pixel that a colour is stored as: 5 bits per channel (the top
/// five of each) and the mask bit in bit 15.
pub open spec fn spec_colour_pixel(c: Colour) -> u16 {
    (((c.r >> 3) as u16) | (((c.g >> 3) as u16) << 5u16) | (((c.b >> 3) as u16) << 10u16)
        | ((c.m as u16) << 15u16)) as u16
}

impl Colour {
    /// Modulates each channel by the matching channel of `other`.
    pub fn blend(&mut self, other: Self)
        ensures
            final(self).r == spec_modulate(old(self).r, other.r),
            final(self).g == spec_modulate(old(self).g, other.g),
            final(self).b == spec_modulate(old(self).b, other.b),
            final(self).m == old(self).m,
    {
        self.r = modulate(self.r, other.r);
        self.g = modulate(self.g, other.g);
        self.b = modulate(self.b, other.b);
    }

    /// Blends the colour over the background `bg` with the semi-transparency
    /// mode `semi_transparency`.
    pub fn blend_with_background(&mut self, bg: Self, semi_transparency: u8)
        requires
            semi_transparency < 4,
        ensures
            final(self).r == spec_blend_channel(old(self).r, bg.r, semi_transparency),
            final(self).g == spec_blend_channel(old(self).g, bg.g, semi_transparency),
            final(self).b == spec_blend_channel(old(self).b, bg.b, semi_transparency),
            final(self).m == old(self).m,
    {
        self.r = blend_channel(self.r, bg.r, semi_transparency);
        self.g = blend_channel(self.g, bg.g, semi_transparency);
        self.b = blend_channel(self.b, bg.b, semi_transparency);
    }

    /// Colour of the 15-bit pixel `color`.
    pub fn from_5bit(color: u16) -> (r: Self)
        ensures
            r == spec_colour_from_pixel(color),
    {
        let lsb = (color & 0xff) as u8;
        let msb = (color >> 8) as u8;
        assert(((msb as u16) << 8u16) | (lsb as u16) == color) by (bit_vector)
            requires
                lsb == (color & 0xff) as u8,
                msb == (color >> 8) as u8,
        ;
        Self::from_bytes(msb, lsb)
    }

    /// Colour of a GP0 colour word: red, green and blue in bits 0-7, 8-15 and
    /// 16-23; mask bit clear.
    pub fn from_gp0(color: u32) -> (r: Self)
        ensures
            r.r == color & 0xff,
            r.g == (color >> 8) & 0xff,
            r.b == (color >> 16) & 0xff,
            r.m == 0,
    {
        assert(color & 0xff <= 0xff && (color >> 8) & 0xff <= 0xff && (color >> 16) & 0xff
            <= 0xff) by (bit_vector);
        let r = (color & 0xFF) as u8;
        let g = ((color >> 8) & 0xFF) as u8;
        let b = ((color >> 16) & 0xFF) as u8;
        Colour { r, g, b, m: 0 }
    }

    /// Colour of the 15-bit pixel stored as the bytes `lsb`, `msb`.
    pub fn from_bytes(msb: u8, lsb: u8) -> (r: Self)
        ensures
            r == spec_colour_from_pixel((((msb as u16) << 8u16) | (lsb as u16)) as u16),
    {
        let pixel: u16 = ((msb as u16) << 8) | (lsb as u16);
        assert(pixel & 0x1f < 32 && (pixel >> 5) & 0x1f < 32 && (pixel >> 10) & 0x1f < 32
            && (pixel >> 15) < 2) by (bit_vector);
        let r = convert_5bit_to_8bit(pixel & 0x1F);
        let g = convert_5bit_to_8bit((pixel >> 5) & 0x1F);
        let b = convert_5bit_to_8bit((pixel >> 10) & 0x1F);
        let m = (pixel >> 15) as u8;
        Colour { r, g, b, m }
    }

    /// Whether all channels and the mask bit are zero.
    pub fn is_black(&self) -> (r: bool)
        ensures
            r == (self.r == 0 && self.g == 0 && self.b == 0 && self.m == 0),
    {
        self.r == 0 && self.b == 0 && self.g == 0 && self.m == 0
    }

    /// The 15-bit pixel of this colour, as little-endian bytes.
    pub fn to_le_bytes(&self) -> (r: [u8; 2])
        ensures
            r[0] == (spec_colour_pixel(*self) & 0xff) as u8,
            r[1] == (spec_colour_pixel(*self) >> 8) as u8,
    {
        let r = (self.r >> 3) as u16;
        let g = (self.g >> 3) as u16;
        let b = (self.b >> 3) as u16;
        let m = self.m as u16;
        let pixel: u16 = r | (g << 5) | (b << 10) | (m << 15);
        [(pixel & 0xff) as u8, (pixel >> 8) as u8]
    }

    /// Adds the dithering offset of pixel `(x, y)` to each channel, clamped.
    pub fn apply_dithering(&mut self, x: i32, y: i32)
        ensures
            final(self).r == spec_saturating_add_signed(
                old(self).r,
                spec_dither_offset((y & 3) as int, (x & 3) as int),
            ),
            final(self).g == spec_saturating_add_signed(
                old(self).g,
                spec_dither_offset((y & 3) as int, (x & 3) as int),
            ),
            final(self).b == spec_saturating_add_signed(
                old(self).b,
                spec_dither_offset((y & 3) as int, (x & 3) as int),
            ),
            final(self).m == old(self).m,
    {
        let offset = dither_offset(x, y);
        self.r = saturating_add_signed(self.r, offset);
        self.g = saturating_add_signed(self.g, offset);
        self.b = saturating_add_signed(self.b, offset);
    }
}

fn modulate(a: u8, b: u8) -> (r: u8)
    ensures
        r == spec_modulate(a, b),
{
    assert((a as u16) * (b as u16) <= 65025) by (nonlinear_arith);
    let prod: u16 = (a as u16) * (b as u16);
    let p: u16 = prod >> 7;
    assert(p == prod / 128) by (bit_vector)
        requires
            p == prod >> 7,
    ;
    if p > 255 {
        255
    } else {
        p as u8
    }
}

fn blend_channel(f: u8, b: u8, mode: u8) -> (r: u8)
    requires
        mode < 4,
    ensures
        r == spec_blend_channel(f, b, mode),
{
    let fi = f as i32;
    let bi = b as i32;
    let v: i32 = if mode == 0 {
        fi / 2 + bi / 2
    } else if mode == 1 {
        fi + bi
    } else if mode == 2 {
        bi - fi
    } else {
        fi / 4 + bi
    };
    if v < 0 {
        0
    } else if v > 255 {
        255
    } else {
        v as u8
    }
}

} // verus!
