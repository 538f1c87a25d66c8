use vstd::prelude::*;

verus! {

/// Colour depth of texture pages.
#[derive(Clone, Copy, Debug, PartialEq, Eq, Structural)]
pub enum TextureDepth {
    T4Bit,
    T8Bit,
    T15Bit,
}

impl TextureDepth {
    /// Value in GPUSTAT bits 7-8.
    pub open spec fn spec_bits(self) -> u32 {
        match self {
            TextureDepth::T4Bit => 0,
            TextureDepth::T8Bit => 1,
            TextureDepth::T15Bit => 2,
        }
    }

    pub fn bits(self) -> (r: u32)
        ensures
            r == self.spec_bits(),
    {
        match self {
            TextureDepth::T4Bit => 0,
            TextureDepth::T8Bit => 1,
            TextureDepth::T15Bit => 2,
        }
    }
}

/// Horizontal display resolution: the resolution code and the GPUSTAT
/// bits 16-18 that it is reported as.
#[derive(Clone, Copy, Debug, PartialEq, Eq, Structural)]
pub struct HorizontalRes(pub u8, pub u8);

impl HorizontalRes {
    /// Resolution from the GP1(08h) fields `hr1` (bits 0-1) and `hr2` (bit 6).
    pub open spec fn spec_from_fields(hr1: u8, hr2: u8) -> HorizontalRes {
        HorizontalRes(((hr2 & 16) | (hr1 & 3)) as u8, ((hr2 & 1) | ((hr1 & 3) << 1u8)) as u8)
    }

    pub fn from_fields(hr1: u8, hr2: u8) -> (r: HorizontalRes)
        ensures
            r == Self::spec_from_fields(hr1, hr2),
    {
        let st = (hr2 & 1) | ((hr1 & 3) << 1);
        let hr = (hr2 & 1 << 4) | (hr1 & 3);
        assert(hr == ((hr2 & 16) | (hr1 & 3)) as u8 && st == ((hr2 & 1) | ((hr1 & 3) << 1u8)) as u8)
            by (bit_vector)
            requires
                st == (hr2 & 1) | ((hr1 & 3) << 1),
                hr == (hr2 & (1u8 << 4u8)) | (hr1 & 3),
        ;
        HorizontalRes(hr, st)
    }

    /// GPUSTAT bits 16-18.
    pub fn into_status(self) -> (r: u32)
        ensures
            r == (self.1 as u32) << 16u32,
    {
        let HorizontalRes(_, st) = self;
        (st as u32) << 16
    }

    /// Resolution codes that name a width.
    pub open spec fn wf(self) -> bool {
        self.0 < 8
    }

    /// Width in pixels: 256, 320, 512, 640, or 368 for codes 4-7.
    pub open spec fn spec_pixels(self) -> usize {
        if self.0 == 0 {
            256
        } else if self.0 == 1 {
            320
        } else if self.0 == 2 {
            512
        } else if self.0 == 3 {
            640
        } else {
            368
        }
    }

    pub fn into_pixels(self) -> (r: usize)
        requires
            self.wf(),
        ensures
            r == self.spec_pixels(),
    {
        match self.0 {
            0 => 256,
            1 => 320,
            2 => 512,
            3 => 640,
            _ => 368,
        }
    }
}

/// Vertical display resolution.
#[derive(Clone, Copy, Debug, PartialEq, Eq, Structural)]
pub enum VerticalRes {
    Y240Lines,
    /// only for interlaced output
    Y480Lines,
}

impl VerticalRes {
    pub open spec fn spec_pixels(self) -> usize {
        match self {
            VerticalRes::Y240Lines => 240,
            VerticalRes::Y480Lines => 480,
        }
    }

    pub open spec fn spec_bits(self) -> u32 {
        match self {
            VerticalRes::Y240Lines => 0,
            VerticalRes::Y480Lines => 1,
        }
    }

    /// Height in lines.
    pub fn into_pixels(self) -> (r: usize)
        ensures
            r == self.spec_pixels(),
    {
        match self {
            Self::Y240Lines => 240,
            Self::Y480Lines => 480,
        }
    }

    pub fn bits(self) -> (r: u32)
        ensures
            r == self.spec_bits(),
    {
        match self {
            Self::Y240Lines => 0,
            Self::Y480Lines => 1,
        }
    }
}

/// Colour depth of the display output.
#[derive(Clone, Copy, Debug, PartialEq, Eq, Structural)]
pub enum DisplayDepth {
    D15Bits,
    D24Bits,
}

impl DisplayDepth {
    pub open spec fn spec_bits(self) -> u32 {
        match self {
            DisplayDepth::D15Bits => 0,
            DisplayDepth::D24Bits => 1,
        }
    }

    pub fn bits(self) -> (r: u32)
        ensures
            r == self.spec_bits(),
    {
        match self {
            DisplayDepth::D15Bits => 0,
            DisplayDepth::D24Bits => 1,
        }
    }
}

/// The state of the GPU that drawing commands depend on.
#[derive(Clone, Copy, Debug, PartialEq, Eq, Structural)]
pub struct RenderingContext {
    /// Texture page base X coordinate (4 bits, 64 byte increment)
    pub page_base_x: u8,
    /// Texture page base Y coordinate (1 bit, 256 line increment)
    pub page_base_y: u8,
    /// Semi Transparency (0=B/2+F/2, 1=B+F, 2=B-F, 3=B+F/4)
    pub semi_transparency: u8,
    pub texture_depth: TextureDepth,
    /// dithering from 24 to 16 bits RGB
    pub dithering: bool,
    pub draw_to_display: bool,
    /// force "mask" bit of the pixel to 1 when writing to VRAM
    pub force_set_mask_bit: bool,
    /// don't draw to pixels which have the "mask" bit set
    pub preserve_masked_pixels: bool,
    pub texture_disable: bool,
    pub hres: HorizontalRes,
    pub vres: VerticalRes,
    /// gpu itself always draws 15bit RGB, 24bit output must use external assets
    pub display_depth: DisplayDepth,
    pub interlaced: bool,
    pub display_disabled: bool,
    pub rectange_texture_x_flip: bool,
    pub rectange_texture_y_flip: bool,
    pub texture_window_x_mask: u8,
    pub texture_window_y_mask: u8,
    pub texture_window_x_offset: u8,
    pub texture_window_y_offset: u8,
    pub drawing_area_left: u16,
    pub drawing_area_top: u16,
    pub drawing_area_right: u16,
    pub drawing_area_bottom: u16,
    pub drawing_x_offset: i16,
    pub drawing_y_offset: i16,
    pub display_vram_x_start: u16,
    pub display_vram_y_start: u16,
    pub display_horiz_start: u16,
    pub display_horiz_end: u16,
    pub display_line_start: u16,
    pub display_line_end: u16,
}

} // verus!
