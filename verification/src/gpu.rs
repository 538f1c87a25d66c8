use vstd::prelude::*;
use crate::addressable::{AccessWidth, Addressable};
use crate::colour::{Colour, Vertex};
use crate::gpu_types::{
    DisplayDepth, HorizontalRes, RenderingContext, TextureDepth, VerticalRes,
};
use crate::renderer_msg::RendererMsg;

verus! {

/// Interlaced field currently displayed.
#[derive(Clone, Copy, Debug, PartialEq, Eq, Structural)]
pub enum Field {
    /// Top field (odd lines)
    Top,
    /// Bottom field (even lines)
    Bottom,
}

/// Video mode.
#[derive(Clone, Copy, Debug, PartialEq, Eq, Structural)]
pub enum VMode {
    /// 480i60H
    Ntsc,
    /// 576i50Hz
    Pal,
}

/// DMA direction selected by GP1(04h).
#[derive(Clone, Copy, Debug, PartialEq, Eq, Structural)]
pub enum DmaDirection {
    Off,
    Fifo,
    CpuToGp0,
    VRamToCpu,
}

/// The words of the GP0 command being collected.
pub struct CommandBuffer {
    pub buffer: [u32; 12],
    pub len: u8,
}

impl CommandBuffer {
    /// The collected words.
    pub open spec fn view(&self) -> Seq<u32> {
        self.buffer@.subrange(0, self.len as int)
    }

    pub open spec fn wf(&self) -> bool {
        self.len <= 12
    }

    pub fn new() -> (r: CommandBuffer)
        ensures
            r.len == 0,
            r@ == Seq::<u32>::empty(),
    {
        CommandBuffer { buffer: [0;12], len: 0 }
    }

    pub fn clear(&mut self)
        ensures
            final(self).len == 0,
            final(self).buffer == old(self).buffer,
            final(self)@ == Seq::<u32>::empty(),
    {
        self.len = 0;
        assert(self@ =~= Seq::<u32>::empty());
    }

    pub fn push_word(&mut self, word: u32)
        requires
            old(self).len < 12,
        ensures
            final(self).len == old(self).len + 1,
            final(self)@ == old(self)@.push(word),
    {
        let l = self.len as usize;
        self.buffer[l] = word;
        self.len = self.len + 1;
        assert(self@ =~= old(self)@.push(word));
    }

    /// Word `index` of the command.
    pub fn index(&self, index: usize) -> (r: u32)
        requires
            index < self.len,
            self.wf(),
        ensures
            r == self@[index as int],
    {
        self.buffer[index]
    }
}

/// How the words written to GP0 are taken.
pub enum Gp0Mode {
    /// Words are collected into a command.
    Command,
    /// Words are pixel data of a CPU-to-VRAM copy.
    ImageLoad { top_left: (u16, u16), resolution: (u16, u16), data: Vec<u32> },
    /// GPUREAD hands out the words of a VRAM-to-CPU copy.
    ImageStore { current_word: usize, data: Vec<u32> },
    /// Vertices of a poly-line (with colours when `true`) until the terminator.
    Polyline(bool),
}

/// The handler of a GP0 command, with the variant it draws.
#[derive(Clone, Copy, Debug, PartialEq, Eq, Structural)]
pub enum Gp0Method {
    Nop,
    ClearCache,
    FillRect,
    LineMono { semi: bool },
    LineShaded { semi: bool },
    PolyMono { quad: bool, semi: bool },
    PolyTexture { quad: bool, semi: bool, blend: bool },
    PolyShaded { quad: bool, semi: bool },
    PolyTextureShaded { quad: bool, semi: bool, blend: bool },
    RectVariable { semi: bool },
    RectTextureVariable { semi: bool, blend: bool },
    RectFixed { side: i32, semi: bool },
    RectTextureFixed { side: i32, semi: bool, blend: bool },
    VramToVramBlit,
    ImageLoad,
    ImageStore,
    DrawMode,
    TextureWindow,
    DrawingAreaTopLeft,
    DrawingAreaBottomRight,
    DrawingOffset,
    MaskBitSetting,
}

/// How a GP0 command is taken: its length in words, its handler, and the
/// poly-line mode it starts (with colours when `true`).
#[derive(Clone, Copy, Debug, PartialEq, Eq, Structural)]
pub struct Gp0Decoded {
    pub len: u32,
    pub method: Gp0Method,
    pub polyline: Option<bool>,
}

pub open spec fn dec(len: u32, method: Gp0Method) -> Option<Gp0Decoded> {
    Some(Gp0Decoded { len, method, polyline: None })
}

pub open spec fn dec_poly(len: u32, method: Gp0Method, shaded: bool) -> Option<Gp0Decoded> {
    Some(Gp0Decoded { len, method, polyline: Some(shaded) })
}

/// The GP0 command table: length and handler of each opcode the GPU knows.
pub open spec fn spec_gp0_decode(op: u32) -> Option<Gp0Decoded> {
    if op == 0x01 {
        dec(1, Gp0Method::ClearCache)
    } else if op == 0x02 {
        dec(3, Gp0Method::FillRect)
    } else if op <= 0x1e {
        dec(1, Gp0Method::Nop)
    } else if 0x20 <= op <= 0x3f {
        let quad = op & 0x08 != 0;
        let semi = op & 0x02 != 0;
        let blend = op & 0x01 == 0;
        if op & 0x10 == 0 {
            if op & 0x04 == 0 {
                dec(if quad { 5 } else { 4 }, Gp0Method::PolyMono { quad, semi })
            } else {
                dec(if quad { 9 } else { 7 }, Gp0Method::PolyTexture { quad, semi, blend })
            }
        } else {
            if op & 0x04 == 0 {
                dec(if quad { 8 } else { 6 }, Gp0Method::PolyShaded { quad, semi })
            } else {
                dec(if quad { 12 } else { 9 }, Gp0Method::PolyTextureShaded { quad, semi, blend })
            }
        }
    } else if op == 0x40 || op == 0x41 || op == 0x44 || op == 0x45 {
        dec(3, Gp0Method::LineMono { semi: false })
    } else if op == 0x42 || op == 0x43 || op == 0x46 || op == 0x47 {
        dec(3, Gp0Method::LineMono { semi: true })
    } else if op == 0x48 || op == 0x4c {
        dec_poly(2, Gp0Method::LineMono { semi: false }, false)
    } else if op == 0x4a || op == 0x4e {
        dec_poly(2, Gp0Method::LineMono { semi: true }, false)
    } else if op == 0x50 || op == 0x51 {
        dec(4, Gp0Method::LineShaded { semi: false })
    } else if op == 0x52 || op == 0x53 {
        dec(4, Gp0Method::LineShaded { semi: true })
    } else if op == 0x58 || op == 0x5c {
        dec_poly(2, Gp0Method::LineShaded { semi: false }, true)
    } else if op == 0x5a || op == 0x5e {
        dec_poly(2, Gp0Method::LineShaded { semi: true }, true)
    } else if 0x60 <= op <= 0x7f {
        let semi = op & 0x02 != 0;
        let blend = op & 0x01 == 0;
        let textured = op & 0x04 != 0;
        let size = (op >> 3) & 3;
        if size == 0 {
            if textured {
                dec(4, Gp0Method::RectTextureVariable { semi, blend })
            } else {
                dec(3, Gp0Method::RectVariable { semi })
            }
        } else {
            let side: i32 = if size == 1 { 1 } else if size == 2 { 8 } else { 16 };
            if textured {
                dec(3, Gp0Method::RectTextureFixed { side, semi, blend })
            } else {
                dec(2, Gp0Method::RectFixed { side, semi })
            }
        }
    } else if op == 0x80 {
        dec(4, Gp0Method::VramToVramBlit)
    } else if op == 0xa0 {
        dec(3, Gp0Method::ImageLoad)
    } else if op == 0xc0 || op == 0xca {
        dec(3, Gp0Method::ImageStore)
    } else if op == 0xe1 {
        dec(1, Gp0Method::DrawMode)
    } else if op == 0xe2 {
        dec(1, Gp0Method::TextureWindow)
    } else if op == 0xe3 {
        dec(1, Gp0Method::DrawingAreaTopLeft)
    } else if op == 0xe4 {
        dec(1, Gp0Method::DrawingAreaBottomRight)
    } else if op == 0xe5 {
        dec(1, Gp0Method::DrawingOffset)
    } else if op == 0xe6 {
        dec(1, Gp0Method::MaskBitSetting)
    } else if op == 0xe0 || 0xe7 <= op <= 0xef {
        dec(1, Gp0Method::Nop)
    } else {
        None
    }
}

/// Looks up a GP0 opcode in the command table.
pub fn gp0_decode(op: u32) -> (r: Option<Gp0Decoded>)
    ensures
        r == spec_gp0_decode(op),
{
    if op == 0x01 {
        Some(Gp0Decoded { len: 1, method: Gp0Method::ClearCache, polyline: None })
    } else if op == 0x02 {
        Some(Gp0Decoded { len: 3, method: Gp0Method::FillRect, polyline: None })
    } else if op <= 0x1e {
        Some(Gp0Decoded { len: 1, method: Gp0Method::Nop, polyline: None })
    } else if 0x20 <= op && op <= 0x3f {
        let quad = op & 0x08 != 0;
        let semi = op & 0x02 != 0;
        let blend = op & 0x01 == 0;
        let (len, method) = if op & 0x10 == 0 {
            if op & 0x04 == 0 {
                (if quad { 5 } else { 4 }, Gp0Method::PolyMono { quad, semi })
            } else {
                (if quad { 9 } else { 7 }, Gp0Method::PolyTexture { quad, semi, blend })
            }
        } else {
            if op & 0x04 == 0 {
                (if quad { 8 } else { 6 }, Gp0Method::PolyShaded { quad, semi })
            } else {
                (if quad { 12 } else { 9 }, Gp0Method::PolyTextureShaded { quad, semi, blend })
            }
        };
        Some(Gp0Decoded { len, method, polyline: None })
    } else if op == 0x40 || op == 0x41 || op == 0x44 || op == 0x45 {
        Some(Gp0Decoded { len: 3, method: Gp0Method::LineMono { semi: false }, polyline: None })
    } else if op == 0x42 || op == 0x43 || op == 0x46 || op == 0x47 {
        Some(Gp0Decoded { len: 3, method: Gp0Method::LineMono { semi: true }, polyline: None })
    } else if op == 0x48 || op == 0x4c {
        Some(
            Gp0Decoded {
                len: 2,
                method: Gp0Method::LineMono { semi: false },
                polyline: Some(false),
            },
        )
    } else if op == 0x4a || op == 0x4e {
        Some(
            Gp0Decoded {
                len: 2,
                method: Gp0Method::LineMono { semi: true },
                polyline: Some(false),
            },
        )
    } else if op == 0x50 || op == 0x51 {
        Some(
            Gp0Decoded { len: 4, method: Gp0Method::LineShaded { semi: false }, polyline: None },
        )
    } else if op == 0x52 || op == 0x53 {
        Some(Gp0Decoded { len: 4, method: Gp0Method::LineShaded { semi: true }, polyline: None })
    } else if op == 0x58 || op == 0x5c {
        Some(
            Gp0Decoded {
                len: 2,
                method: Gp0Method::LineShaded { semi: false },
                polyline: Some(true),
            },
        )
    } else if op == 0x5a || op == 0x5e {
        Some(
            Gp0Decoded {
                len: 2,
                method: Gp0Method::LineShaded { semi: true },
                polyline: Some(true),
            },
        )
    } else if 0x60 <= op && op <= 0x7f {
        let semi = op & 0x02 != 0;
        let blend = op & 0x01 == 0;
        let textured = op & 0x04 != 0;
        let size = (op >> 3) & 3;
        if size == 0 {
            if textured {
                Some(
                    Gp0Decoded {
                        len: 4,
                        method: Gp0Method::RectTextureVariable { semi, blend },
                        polyline: None,
                    },
                )
            } else {
                Some(
                    Gp0Decoded {
                        len: 3,
                        method: Gp0Method::RectVariable { semi },
                        polyline: None,
                    },
                )
            }
        } else {
            let side: i32 = if size == 1 { 1 } else if size == 2 { 8 } else { 16 };
            if textured {
                Some(
                    Gp0Decoded {
                        len: 3,
                        method: Gp0Method::RectTextureFixed { side, semi, blend },
                        polyline: None,
                    },
                )
            } else {
                Some(
                    Gp0Decoded {
                        len: 2,
                        method: Gp0Method::RectFixed { side, semi },
                        polyline: None,
                    },
                )
            }
        }
    } else if op == 0x80 {
        Some(Gp0Decoded { len: 4, method: Gp0Method::VramToVramBlit, polyline: None })
    } else if op == 0xa0 {
        Some(Gp0Decoded { len: 3, method: Gp0Method::ImageLoad, polyline: None })
    } else if op == 0xc0 || op == 0xca {
        Some(Gp0Decoded { len: 3, method: Gp0Method::ImageStore, polyline: None })
    } else if op == 0xe1 {
        Some(Gp0Decoded { len: 1, method: Gp0Method::DrawMode, polyline: None })
    } else if op == 0xe2 {
        Some(Gp0Decoded { len: 1, method: Gp0Method::TextureWindow, polyline: None })
    } else if op == 0xe3 {
        Some(Gp0Decoded { len: 1, method: Gp0Method::DrawingAreaTopLeft, polyline: None })
    } else if op == 0xe4 {
        Some(Gp0Decoded { len: 1, method: Gp0Method::DrawingAreaBottomRight, polyline: None })
    } else if op == 0xe5 {
        Some(Gp0Decoded { len: 1, method: Gp0Method::DrawingOffset, polyline: None })
    } else if op == 0xe6 {
        Some(Gp0Decoded { len: 1, method: Gp0Method::MaskBitSetting, polyline: None })
    } else if op == 0xe0 || (0xe7 <= op && op <= 0xef) {
        Some(Gp0Decoded { len: 1, method: Gp0Method::Nop, polyline: None })
    } else {
        None
    }
}

/// The 11-bit field `b` read as a signed number.
pub open spec fn spec_sext11(b: u32) -> i32 {
    if b >= 0x400 {
        (b - 0x800) as i32
    } else {
        b as i32
    }
}

/// Vertex of a GP0 vertex word: x in bits 0-10, y in bits 16-26, both signed.
pub open spec fn spec_gp0_vertex(v: u32) -> Vertex {
    Vertex { x: spec_sext11(v & 0x7ff), y: spec_sext11((v >> 16) & 0x7ff) }
}

/// Texture coordinates and palette/page word: u (bits 0-7), v (bits 8-15)
/// and the CLUT or texture page (bits 16-31).
pub open spec fn spec_gp0_page_clut(value: u32) -> [u16; 3] {
    [(value & 0xff) as u16, ((value >> 8) & 0xff) as u16, (value >> 16) as u16]
}

/// The colour of a GP0 colour word.
pub open spec fn spec_gp0_colour(c: u32) -> Colour {
    Colour { r: (c & 0xff) as u8, g: ((c >> 8) & 0xff) as u8, b: ((c >> 16) & 0xff) as u8, m: 0 }
}

/// Width (0 meaning 1024) and height (0 meaning 512) of an image transfer.
pub open spec fn spec_transfer_size(res: u32) -> (u32, u32) {
    let w = res & 0xffff;
    let h = res >> 16;
    (if w == 0 { 1024 } else { w }, if h == 0 { 512 } else { h })
}

/// Number of words of an image of `w * h` halfwords, padded to whole words.
pub open spec fn spec_transfer_words(w: u32, h: u32) -> u32 {
    ((((w * h) as u32 + 1) as u32 & !1u32) / 2) as u32
}

/// The drawing requests of a GP0 drawing command with the words `cmd`.
pub open spec fn spec_draw_msgs(m: Gp0Method, cmd: Seq<u32>, ctx: RenderingContext) -> Seq<
    RendererMsg,
> {
    let vert = |i: int| spec_gp0_vertex(cmd[i]);
    let col = |i: int| spec_gp0_colour(cmd[i]);
    let pc = |i: int| spec_gp0_page_clut(cmd[i]);
    match m {
        Gp0Method::FillRect => seq![RendererMsg::FillRect { v: vert(1), side: vert(2), c: col(0), ctx }],
        Gp0Method::LineMono { semi } => seq![
            RendererMsg::DrawLine { v0: vert(1), v1: vert(2), c0: col(0), semi_transparent: semi, ctx },
        ],
        Gp0Method::LineShaded { semi } => seq![
            RendererMsg::DrawLineShaded {
                v0: vert(1),
                v1: vert(3),
                c0: col(0),
                c1: col(2),
                semi_transparent: semi,
                ctx,
            },
        ],
        Gp0Method::RectFixed { side, semi } => seq![
            RendererMsg::DrawRectangle {
                v: vert(1),
                side: Vertex { x: side, y: side },
                c: col(0),
                semi_transparent: semi,
                ctx,
            },
        ],
        Gp0Method::RectVariable { semi } => seq![
            RendererMsg::DrawRectangle { v: vert(1), side: vert(2), c: col(0), semi_transparent: semi, ctx },
        ],
        Gp0Method::RectTextureFixed { side, semi, blend } => seq![
            RendererMsg::DrawRectangleTextured {
                v: vert(1),
                side: Vertex { x: side, y: side },
                c: col(0),
                clut: pc(2)[2],
                _u: pc(2)[0],
                _v: pc(2)[1],
                semi_transparent: semi,
                blend,
                ctx,
            },
        ],
        Gp0Method::RectTextureVariable { semi, blend } => seq![
            RendererMsg::DrawRectangleTextured {
                v: vert(1),
                side: vert(3),
                c: col(0),
                clut: pc(2)[2],
                _u: pc(2)[0],
                _v: pc(2)[1],
                semi_transparent: semi,
                blend,
                ctx,
            },
        ],
        Gp0Method::PolyMono { quad, semi } => {
            let first = RendererMsg::DrawTriangleMono {
                c: col(0),
                v0: vert(1),
                v1: vert(2),
                v2: vert(3),
                semi_transparent: semi,
                ctx,
            };
            if quad {
                seq![first, RendererMsg::DrawTriangleMono {
                    c: col(0),
                    v0: vert(2),
                    v1: vert(3),
                    v2: vert(4),
                    semi_transparent: semi,
                    ctx,
                }]
            } else {
                seq![first]
            }
        },
        Gp0Method::PolyShaded { quad, semi } => {
            let first = RendererMsg::DrawTriangleShaded {
                vs: [vert(1), vert(3), vert(5)],
                cs: [col(0), col(2), col(4)],
                semi_transparent: semi,
                ctx,
            };
            if quad {
                seq![first, RendererMsg::DrawTriangleShaded {
                    vs: [vert(3), vert(5), vert(7)],
                    cs: [col(2), col(4), col(6)],
                    semi_transparent: semi,
                    ctx,
                }]
            } else {
                seq![first]
            }
        },
        Gp0Method::PolyTexture { quad, semi, blend } => {
            let first = RendererMsg::DrawTriangleTextured {
                color: col(0),
                clut: pc(2)[2],
                page: pc(4)[2],
                vs: [vert(1), vert(3), vert(5)],
                uvs: [[pc(2)[0], pc(2)[1]], [pc(4)[0], pc(4)[1]], [pc(6)[0], pc(6)[1]]],
                semi_transparent: semi,
                blend,
                ctx,
            };
            if quad {
                seq![first, RendererMsg::DrawTriangleTextured {
                    color: col(0),
                    clut: pc(2)[2],
                    page: pc(4)[2],
                    vs: [vert(3), vert(5), vert(7)],
                    uvs: [[pc(4)[0], pc(4)[1]], [pc(6)[0], pc(6)[1]], [pc(8)[0], pc(8)[1]]],
                    semi_transparent: semi,
                    blend,
                    ctx,
                }]
            } else {
                seq![first]
            }
        },
        Gp0Method::PolyTextureShaded { quad, semi, blend } => {
            let first = RendererMsg::DrawTriangleTexturedShaded {
                cs: [col(0), col(3), col(6)],
                clut: pc(2)[2],
                page: pc(5)[2],
                vs: [vert(1), vert(4), vert(7)],
                uvs: [[pc(2)[0], pc(2)[1]], [pc(5)[0], pc(5)[1]], [pc(8)[0], pc(8)[1]]],
                semi_transparent: semi,
                blend,
                ctx,
            };
            if quad {
                seq![first, RendererMsg::DrawTriangleTexturedShaded {
                    cs: [col(3), col(6), col(9)],
                    clut: pc(2)[2],
                    page: pc(5)[2],
                    vs: [vert(4), vert(7), vert(10)],
                    uvs: [[pc(5)[0], pc(5)[1]], [pc(8)[0], pc(8)[1]], [pc(11)[0], pc(11)[1]]],
                    semi_transparent: semi,
                    blend,
                    ctx,
                }]
            } else {
                seq![first]
            }
        },
        Gp0Method::VramToVramBlit => seq![
            RendererMsg::Vram2VramBlit { src: vert(1), dst: vert(2), size: vert(3) },
        ],
        _ => Seq::empty(),
    }
}

/// Whether the handler only issues drawing requests.
pub open spec fn is_draw_method(m: Gp0Method) -> bool {
    match m {
        Gp0Method::FillRect | Gp0Method::LineMono { .. } | Gp0Method::LineShaded { .. }
        | Gp0Method::RectFixed { .. } | Gp0Method::RectVariable { .. }
        | Gp0Method::RectTextureFixed { .. } | Gp0Method::RectTextureVariable { .. }
        | Gp0Method::PolyMono { .. } | Gp0Method::PolyShaded { .. }
        | Gp0Method::PolyTexture { .. } | Gp0Method::PolyTextureShaded { .. }
        | Gp0Method::VramToVramBlit => true,
        _ => false,
    }
}

/// Number of command words a handler reads.
pub open spec fn method_words(m: Gp0Method) -> nat {
    match m {
        Gp0Method::Nop | Gp0Method::ClearCache => 0,
        Gp0Method::FillRect => 3,
        Gp0Method::LineMono { .. } => 3,
        Gp0Method::LineShaded { .. } => 4,
        Gp0Method::PolyMono { quad, .. } => if quad { 5 } else { 4 },
        Gp0Method::PolyTexture { quad, .. } => if quad { 9 } else { 7 },
        Gp0Method::PolyShaded { quad, .. } => if quad { 8 } else { 6 },
        Gp0Method::PolyTextureShaded { quad, .. } => if quad { 12 } else { 9 },
        Gp0Method::RectVariable { .. } => 3,
        Gp0Method::RectTextureVariable { .. } => 4,
        Gp0Method::RectFixed { .. } => 2,
        Gp0Method::RectTextureFixed { .. } => 3,
        Gp0Method::VramToVramBlit => 4,
        Gp0Method::ImageLoad | Gp0Method::ImageStore => 3,
        _ => 1,
    }
}

} // verus!
verus! {

/// The GPU's registers: drawing and display settings and status flags.
#[derive(Clone, Copy, Debug, PartialEq, Eq, Structural)]
pub struct GpuRegs {
    /// Texture page base X coordinate (4 bits, 64 byte increment)
    pub page_base_x: u8,
    /// Texture page base Y coordinate (1 bit, 256 line increment)
    pub page_base_y: u8,
    /// Semi Transparency (0=B/2+F/2, 1=B+F, 2=B-F, 3=B+F/4)
    pub semi_transparency: u8,
    pub texture_depth: TextureDepth,
    /// dithering from 24 to 16 bits RGB
    pub dithering: bool,
    pub draw_to_display: bool,
    /// force "mask" bit of the pixel to 1 when writing to VRAM
    pub force_set_mask_bit: bool,
    /// don't draw to pixels which have the "mask" bit set
    pub preserve_masked_pixels: bool,
    /// currently displayed field. For progressive output this is always Top
    pub field: Field,
    pub texture_disable: bool,
    pub hres: HorizontalRes,
    pub vres: VerticalRes,
    pub vmode: VMode,
    /// gpu itself always draws 15bit RGB, 24bit output must use external assets
    pub display_depth: DisplayDepth,
    pub interlaced: bool,
    pub display_disabled: bool,
    pub interrupt: bool,
    pub dma_direction: DmaDirection,
    pub rectange_texture_x_flip: bool,
    pub rectange_texture_y_flip: bool,
    pub texture_window_x_mask: u8,
    pub texture_window_y_mask: u8,
    pub texture_window_x_offset: u8,
    pub texture_window_y_offset: u8,
    pub drawing_area_left: u16,
    pub drawing_area_top: u16,
    pub drawing_area_right: u16,
    pub drawing_area_bottom: u16,
    pub drawing_x_offset: i16,
    pub drawing_y_offset: i16,
    pub display_vram_x_start: u16,
    pub display_vram_y_start: u16,
    pub display_horiz_start: u16,
    pub display_horiz_end: u16,
    pub display_line_start: u16,
    pub display_line_end: u16,
    pub even: bool,
    pub in_hblank: bool,
    pub in_vblank: bool,
    /// Value returned by GPUREAD outside of VRAM-to-CPU transfers.
    pub read: u32,
}

/// The drawing context of the registers.
pub open spec fn spec_ctx(r: GpuRegs) -> RenderingContext {
    RenderingContext {
        page_base_x: r.page_base_x,
        page_base_y: r.page_base_y,
        semi_transparency: r.semi_transparency,
        texture_depth: r.texture_depth,
        dithering: r.dithering,
        draw_to_display: r.draw_to_display,
        force_set_mask_bit: r.force_set_mask_bit,
        preserve_masked_pixels: r.preserve_masked_pixels,
        texture_disable: r.texture_disable,
        hres: r.hres,
        vres: r.vres,
        display_depth: r.display_depth,
        interlaced: r.interlaced,
        display_disabled: r.display_disabled,
        rectange_texture_x_flip: r.rectange_texture_x_flip,
        rectange_texture_y_flip: r.rectange_texture_y_flip,
        texture_window_x_mask: r.texture_window_x_mask,
        texture_window_y_mask: r.texture_window_y_mask,
        texture_window_x_offset: r.texture_window_x_offset,
        texture_window_y_offset: r.texture_window_y_offset,
        drawing_area_left: r.drawing_area_left,
        drawing_area_top: r.drawing_area_top,
        drawing_area_right: r.drawing_area_right,
        drawing_area_bottom: r.drawing_area_bottom,
        drawing_x_offset: r.drawing_x_offset,
        drawing_y_offset: r.drawing_y_offset,
        display_vram_x_start: r.display_vram_x_start,
        display_vram_y_start: r.display_vram_y_start,
        display_horiz_start: r.display_horiz_start,
        display_horiz_end: r.display_horiz_end,
        display_line_start: r.display_line_start,
        display_line_end: r.display_line_end,
    }
}

/// Registers after a one-word settings command `val` handled by `m`
/// (unchanged for every other handler).
pub open spec fn spec_apply_setting(m: Gp0Method, r: GpuRegs, val: u32) -> GpuRegs {
    match m {
        Gp0Method::DrawMode => GpuRegs {
            page_base_x: (val & 0xf) as u8,
            page_base_y: ((val >> 4) & 1) as u8,
            semi_transparency: ((val >> 5) & 3) as u8,
            texture_depth: if (val >> 7) & 3 == 0 {
                TextureDepth::T4Bit
            } else if (val >> 7) & 3 == 1 {
                TextureDepth::T8Bit
            } else {
                TextureDepth::T15Bit
            },
            dithering: (val >> 9) & 1 != 0,
            draw_to_display: (val >> 10) & 1 != 0,
            texture_disable: (val >> 11) & 1 != 0,
            rectange_texture_x_flip: (val >> 12) & 1 != 0,
            rectange_texture_y_flip: (val >> 13) & 1 != 0,
            ..r
        },
        Gp0Method::TextureWindow => GpuRegs {
            texture_window_x_mask: (val & 0x1f) as u8,
            texture_window_y_mask: ((val >> 5) & 0x1f) as u8,
            texture_window_x_offset: ((val >> 10) & 0x1f) as u8,
            texture_window_y_offset: ((val >> 15) & 0x1f) as u8,
            ..r
        },
        Gp0Method::DrawingAreaTopLeft => GpuRegs {
            drawing_area_top: ((val >> 10) & 0x3ff) as u16,
            drawing_area_left: (val & 0x3ff) as u16,
            ..r
        },
        Gp0Method::DrawingAreaBottomRight => GpuRegs {
            drawing_area_bottom: ((val >> 10) & 0x3ff) as u16,
            drawing_area_right: (val & 0x3ff) as u16,
            ..r
        },
        Gp0Method::DrawingOffset => GpuRegs {
            drawing_x_offset: spec_sext11(val & 0x7ff) as i16,
            drawing_y_offset: spec_sext11((val >> 11) & 0x7ff) as i16,
            ..r
        },
        Gp0Method::MaskBitSetting => GpuRegs {
            force_set_mask_bit: (val & 1) != 0,
            preserve_masked_pixels: (val & 2) != 0,
            ..r
        },
        _ => r,
    }
}

/// GPUSTAT as computed from the registers.
pub open spec fn spec_status(r: GpuRegs) -> u32 {
    let field_bits: u32 = match r.field {
        Field::Top => 1,
        Field::Bottom => 2,
    };
    let vmode_bits: u32 = match r.vmode {
        VMode::Ntsc => 0,
        VMode::Pal => 1,
    };
    let dma_request: u32 = if r.dma_direction == DmaDirection::Off { 0 } else { 1 };
    let odd: u32 = if !r.even && !r.in_vblank { 1 } else { 0 };
    ((r.page_base_x as u32) | ((r.page_base_y as u32) << 4u32) | ((
    r.semi_transparency as u32) << 5u32) | (r.texture_depth.spec_bits() << 7u32) | ((
    r.dithering as u32) << 9u32) | ((r.draw_to_display as u32) << 10u32) | ((
    r.force_set_mask_bit as u32) << 11u32) | ((r.preserve_masked_pixels as u32) << 12u32) | (
    field_bits << 13u32) | ((r.texture_disable as u32) << 15u32) | ((r.hres.1 as u32) << 16u32) | (
    r.vres.spec_bits() << 19u32) | (vmode_bits << 20u32) | (r.display_depth.spec_bits() << 21u32)
        | ((r.interlaced as u32) << 22u32) | ((r.display_disabled as u32) << 23u32) | ((
    r.interrupt as u32) << 24u32) | (dma_request << 25u32) | (1u32 << 26u32) | (1u32 << 27u32) | (
    1u32 << 28u32) | (odd << 31u32)) as u32
}

/// Registers after GP1(00h), reset.
pub open spec fn spec_reset_regs(r: GpuRegs) -> GpuRegs {
    GpuRegs {
        page_base_x: 0,
        page_base_y: 0,
        semi_transparency: 0,
        texture_depth: TextureDepth::T4Bit,
        texture_window_x_mask: 0,
        texture_window_y_mask: 0,
        texture_window_x_offset: 0,
        texture_window_y_offset: 0,
        dithering: false,
        draw_to_display: false,
        texture_disable: false,
        rectange_texture_x_flip: false,
        rectange_texture_y_flip: false,
        drawing_area_left: 0,
        drawing_area_top: 0,
        drawing_area_right: 0,
        drawing_area_bottom: 0,
        drawing_x_offset: 0,
        drawing_y_offset: 0,
        force_set_mask_bit: false,
        preserve_masked_pixels: false,
        dma_direction: DmaDirection::Off,
        display_disabled: true,
        display_vram_x_start: 0,
        display_vram_y_start: 0,
        hres: HorizontalRes::spec_from_fields(0, 0),
        vres: VerticalRes::Y240Lines,
        vmode: VMode::Ntsc,
        interlaced: true,
        display_horiz_start: 0x200,
        display_horiz_end: 0xc00,
        display_line_start: 0x10,
        display_line_end: 0x100,
        display_depth: DisplayDepth::D15Bits,
        interrupt: false,
        ..r
    }
}

/// GP1 commands the GPU handles: opcodes 00h-08h and 10h, and for 08h no
/// display mode with bit 7 set.
pub open spec fn spec_gp1_supported(val: u32) -> bool {
    let op = (val >> 24) & 0xff;
    (op <= 8 || op == 0x10) && (op == 8 ==> val & 0x80 == 0)
}

/// Registers after GP1(04h) with parameter `val`: DMA direction.
pub open spec fn spec_gp1_dma_direction(r: GpuRegs, val: u32) -> GpuRegs {
    GpuRegs {
        dma_direction: if val & 3 == 0 {
            DmaDirection::Off
        } else if val & 3 == 1 {
            DmaDirection::Fifo
        } else if val & 3 == 2 {
            DmaDirection::CpuToGp0
        } else {
            DmaDirection::VRamToCpu
        },
        ..r
    }
}

/// Registers after GP1(05h): start of the display area in VRAM.
pub open spec fn spec_gp1_display_vram_start(r: GpuRegs, val: u32) -> GpuRegs {
    GpuRegs {
        display_vram_x_start: (val & 0x3fe) as u16,
        display_vram_y_start: ((val >> 10) & 0x1ff) as u16,
        ..r
    }
}

/// Registers after GP1(06h): horizontal display range.
pub open spec fn spec_gp1_display_horizontal_range(r: GpuRegs, val: u32) -> GpuRegs {
    GpuRegs {
        display_horiz_start: (val & 0xfff) as u16,
        display_horiz_end: ((val >> 12) & 0xfff) as u16,
        ..r
    }
}

/// Registers after GP1(07h): vertical display range.
pub open spec fn spec_gp1_display_vertical_range(r: GpuRegs, val: u32) -> GpuRegs {
    GpuRegs {
        display_line_start: (val & 0x3ff) as u16,
        display_line_end: ((val >> 10) & 0x3ff) as u16,
        ..r
    }
}

/// Registers after GP1(08h): display mode.
pub open spec fn spec_gp1_display_mode(r: GpuRegs, val: u32) -> GpuRegs {
    GpuRegs {
        hres: HorizontalRes::spec_from_fields((val & 3) as u8, ((val >> 6) & 1) as u8),
        vres: if val & 0x4 != 0 {
            VerticalRes::Y480Lines
        } else {
            VerticalRes::Y240Lines
        },
        vmode: if val & 0x8 != 0 {
            VMode::Pal
        } else {
            VMode::Ntsc
        },
        display_depth: if val & 0x10 != 0 {
            DisplayDepth::D24Bits
        } else {
            DisplayDepth::D15Bits
        },
        interlaced: val & 0x20 != 0,
        ..r
    }
}

/// Registers after the GP1 command `val` (the command buffer is handled
/// apart).
pub open spec fn spec_gp1_regs(r: GpuRegs, val: u32) -> GpuRegs {
    let op = (val >> 24) & 0xff;
    if op == 0 {
        spec_reset_regs(r)
    } else if op == 2 {
        GpuRegs { interrupt: false, ..r }
    } else if op == 3 {
        GpuRegs { display_disabled: val & 1 != 0, ..r }
    } else if op == 4 {
        spec_gp1_dma_direction(r, val)
    } else if op == 5 {
        spec_gp1_display_vram_start(r, val)
    } else if op == 6 {
        spec_gp1_display_horizontal_range(r, val)
    } else if op == 7 {
        spec_gp1_display_vertical_range(r, val)
    } else if op == 8 {
        spec_gp1_display_mode(r, val)
    } else if op == 0x10 {
        GpuRegs { read: spec_gpu_info(r, val), ..r }
    } else {
        r
    }
}

/// Texture window setting as reported by GP1(10h).
pub open spec fn spec_texture_window_setting(r: GpuRegs) -> u32 {
    ((r.texture_window_x_mask as u32 & 31) | ((r.texture_window_y_mask as u32 & 31) << 5u32) | ((
    r.texture_window_x_offset as u32 & 31) << 10u32) | ((r.texture_window_y_offset as u32 & 31)
        << 15u32)) as u32
}

/// Drawing offset as reported by GP1(10h).
pub open spec fn spec_draw_offset(r: GpuRegs) -> u32 {
    ((((r.drawing_y_offset as u32) & 0x3ff) << 11u32) | ((r.drawing_x_offset as u32) & 0x7ff)) as u32
}

/// A drawing-area corner as reported by GP1(10h).
pub open spec fn spec_draw_area_corner(x: u16, y: u16) -> u32 {
    ((((y as u32) & 0x1ff) << 10u32) | ((x as u32) & 0x3ff)) as u32
}

/// GPUREAD latch after GP1(10h) with parameter `val`.
pub open spec fn spec_gpu_info(r: GpuRegs, val: u32) -> u32 {
    let v = val % 8;
    if v == 2 {
        spec_texture_window_setting(r)
    } else if v == 3 {
        spec_draw_area_corner(r.drawing_area_left, r.drawing_area_top)
    } else if v == 4 {
        spec_draw_area_corner(r.drawing_area_right, r.drawing_area_bottom)
    } else if v == 5 {
        spec_draw_offset(r)
    } else {
        r.read
    }
}

} // verus!
verus! {

/// The GPU: its registers, the GP0 command being collected, and the drawing
/// requests it has issued and not yet handed to the rasteriser.
pub struct Gpu {
    pub regs: GpuRegs,
    pub gp0_command: CommandBuffer,
    pub gp0_words_remaining: u32,
    pub gp0_command_method: Gp0Method,
    pub gp0_mode: Gp0Mode,
    /// Requests issued to the rasteriser, oldest first.
    pub outbox: Vec<RendererMsg>,
    /// A VRAM-to-CPU copy was requested and its data not delivered yet.
    pub readback_pending: bool,
    /// Number of words the requested VRAM-to-CPU copy delivers.
    pub readback_words: u32,
}

/// Effect of running the handler `m` on the command `cmd` from the state
/// `o`, giving `n`.
pub open spec fn spec_run_post(m: Gp0Method, cmd: Seq<u32>, o: Gpu, n: Gpu) -> bool {
    &&& n.gp0_command@ == cmd
    &&& n.gp0_command_method == m
    &&& if is_draw_method(m) {
        &&& n.outbox@ == o.outbox@ + spec_draw_msgs(m, cmd, spec_ctx(o.regs))
        &&& n.regs == o.regs
        &&& n.gp0_mode is Command
        &&& n.gp0_words_remaining == 0
        &&& n.readback_pending == o.readback_pending
    } else if m == Gp0Method::ImageLoad || m == Gp0Method::ImageStore {
        let top_left = ((cmd[1] & 0xffff) as u16, (cmd[1] >> 16) as u16);
        let size = spec_transfer_size(cmd[2]);
        let words = spec_transfer_words(size.0, size.1);
        let res = (size.0 as u16, size.1 as u16);
        &&& n.regs == o.regs
        &&& n.gp0_words_remaining == words
        &&& if m == Gp0Method::ImageLoad {
            &&& n.outbox@ == o.outbox@
            &&& n.gp0_mode matches Gp0Mode::ImageLoad { top_left: t, resolution: r, data } && t
                == top_left && r == res && data@.len() == 0
            &&& n.readback_pending == o.readback_pending
        } else {
            &&& n.outbox@ == o.outbox@.push(RendererMsg::VramToCpuCopy { top_left, size: res })
            &&& n.gp0_mode matches Gp0Mode::ImageStore { current_word, data } && current_word
                == 0 && data@.len() == 0
            &&& n.readback_pending
            &&& n.readback_words == words
        }
    } else {
        &&& n.regs == spec_apply_setting(m, o.regs, cmd[0])
        &&& n.outbox@ == o.outbox@
        &&& n.gp0_mode is Command
        &&& n.gp0_words_remaining == 0
        &&& n.readback_pending == o.readback_pending
    }
}

/// Whether `val` ends a poly-line.
pub open spec fn spec_polyline_end(val: u32) -> bool {
    (val & 0xf000_f000) == 0x5000_5000
}

/// The GPU after GP0 receives `val` in state `o` (the state `n`).
pub open spec fn spec_gp0_post(o: Gpu, n: Gpu, val: u32) -> bool {
    let started = o.gp0_words_remaining == 0;
    let d = spec_gp0_decode(val >> 24)->0;
    let method = if started { d.method } else { o.gp0_command_method };
    let rem1: int = if started { d.len - 1 } else { o.gp0_words_remaining - 1 };
    let cmd0 = if started { Seq::<u32>::empty() } else { o.gp0_command@ };
    let poly: Option<bool> = if started && d.polyline is Some {
        d.polyline
    } else if o.gp0_mode is Polyline {
        Some(o.gp0_mode->Polyline_0)
    } else {
        None
    };
    let cmd1 = cmd0.push(val);
    if poly is Some {
        let c = poly->0;
        if spec_polyline_end(val) {
            &&& n.gp0_mode is Command
            &&& n.gp0_words_remaining == 0
            &&& n.gp0_command@ == cmd0
            &&& n.regs == o.regs
            &&& n.outbox@ == o.outbox@
        } else {
            &&& n.gp0_mode == Gp0Mode::Polyline(c)
            &&& n.gp0_words_remaining == 2
            &&& n.gp0_command_method == method
            &&& n.regs == o.regs
            &&& if c && cmd1.len() == 4 {
                &&& n.outbox@ == o.outbox@ + spec_draw_msgs(method, cmd1, spec_ctx(o.regs))
                &&& n.gp0_command@ == seq![cmd1[2], cmd1[3]]
            } else if !c && cmd1.len() == 3 {
                &&& n.outbox@ == o.outbox@ + spec_draw_msgs(method, cmd1, spec_ctx(o.regs))
                &&& n.gp0_command@ == seq![cmd1[0], cmd1[2]]
            } else {
                &&& n.outbox@ == o.outbox@
                &&& n.gp0_command@ == cmd1
            }
        }
    } else {
        match o.gp0_mode {
            Gp0Mode::Command => if rem1 > 0 {
                &&& n.gp0_mode is Command
                &&& n.gp0_command@ == cmd1
                &&& n.gp0_words_remaining == rem1
                &&& n.gp0_command_method == method
                &&& n.regs == o.regs
                &&& n.outbox@ == o.outbox@
            } else {
                spec_run_post(method, cmd1, o, n)
            },
            Gp0Mode::ImageLoad { top_left, resolution, data } => {
                &&& n.regs == o.regs
                &&& n.gp0_words_remaining == rem1
                &&& if rem1 == 0 {
                    &&& n.gp0_mode is Command
                    &&& n.outbox@.len() == o.outbox@.len() + 1
                    &&& n.outbox@.subrange(0, o.outbox@.len() as int) == o.outbox@
                    &&& n.outbox@.last() matches RendererMsg::CpuToVramCopy {
                        top_left: t,
                        size: s,
                        data: d,
                    } && t == top_left && s == resolution && d@ == data@.push(val)
                } else {
                    &&& n.outbox@ == o.outbox@
                    &&& n.gp0_mode matches Gp0Mode::ImageLoad {
                        top_left: t,
                        resolution: r,
                        data: d,
                    } && t == top_left && r == resolution && d@ == data@.push(val)
                }
            },
            _ => {
                &&& n.gp0_mode == o.gp0_mode
                &&& n.gp0_words_remaining == rem1
                &&& n.gp0_command@ == cmd0
                &&& n.gp0_command_method == method
                &&& n.regs == o.regs
                &&& n.outbox@ == o.outbox@
            },
        }
    }
}

} // verus!
verus! {

/// Vertex of a GP0 vertex word: x in bits 0-10, y in bits 16-26, both signed.
pub fn gp0_vertex(v: u32) -> (r: Vertex)
    ensures
        r == spec_gp0_vertex(v),
{
    let xb = v & 0x7ff;
    let yb = (v >> 16) & 0x7ff;
    assert(xb <= 0x7ff && yb <= 0x7ff) by (bit_vector)
        requires
            xb == v & 0x7ff,
            yb == (v >> 16) & 0x7ff,
    ;
    let x: i32 = if xb >= 0x400 { xb as i32 - 0x800 } else { xb as i32 };
    let y: i32 = if yb >= 0x400 { yb as i32 - 0x800 } else { yb as i32 };
    Vertex { x, y }
}

/// Texture coordinates and CLUT or page of a GP0 word.
pub fn gp0_page_clut(value: u32) -> (r: [u16; 3])
    ensures
        r == spec_gp0_page_clut(value),
{
    assert(value & 0xff <= 0xff && (value >> 8) & 0xff <= 0xff && value >> 16 <= 0xffff)
        by (bit_vector);
    let u = value & 0xFF;
    let v = (value >> 8) & 0xFF;
    let pc = value >> 16;
    [u as u16, v as u16, pc as u16]
}

/// Colour of a GP0 colour word.
pub fn gp0_colour(color: u32) -> (r: Colour)
    ensures
        r == spec_gp0_colour(color),
{
    Colour::from_gp0(color)
}

/// A CPU-to-VRAM (`store` false) or VRAM-to-CPU (`store` true) copy set up
/// from the command's position and size words (`o` becomes `n`).
pub open spec fn spec_image_transfer(o: Gpu, n: Gpu, store: bool) -> bool {
    let cmd = o.gp0_command@;
    let top_left = ((cmd[1] & 0xffff) as u16, (cmd[1] >> 16) as u16);
    let size = spec_transfer_size(cmd[2]);
    let words = spec_transfer_words(size.0, size.1);
    let res = (size.0 as u16, size.1 as u16);
    &&& n.regs == o.regs
    &&& n.gp0_command == o.gp0_command
    &&& n.gp0_command_method == o.gp0_command_method
    &&& n.gp0_words_remaining == words
    &&& words >= 1
    &&& if !store {
        &&& n.outbox@ == o.outbox@
        &&& n.gp0_mode matches Gp0Mode::ImageLoad {
            top_left: t,
            resolution: r,
            data,
        } && t == top_left && r == res && data@.len() == 0
        &&& n.readback_pending == o.readback_pending
        &&& n.readback_words == o.readback_words
    } else {
        &&& n.outbox@ == o.outbox@.push(
            RendererMsg::VramToCpuCopy { top_left, size: res },
        )
        &&& n.gp0_mode matches Gp0Mode::ImageStore { current_word, data }
            && current_word == 0 && data@.len() == 0
        &&& n.readback_pending
        &&& n.readback_words == words
    }
}

impl Gpu {
    /// The invariant of the command framing.
    pub open spec fn wf(&self) -> bool {
        &&& self.gp0_command.wf()
        &&& match self.gp0_mode {
            Gp0Mode::Command => self.gp0_command.len + self.gp0_words_remaining <= 12 && (
            self.gp0_words_remaining > 0 ==> self.gp0_command.len + self.gp0_words_remaining
                >= method_words(self.gp0_command_method)),
            Gp0Mode::Polyline(c) => self.gp0_words_remaining == 2 && self.gp0_command.len <= (
            if c {
                3int
            } else {
                2int
            }) && is_draw_method(self.gp0_command_method) && method_words(
                self.gp0_command_method,
            ) == (if c {
                4nat
            } else {
                3nat
            }),
            Gp0Mode::ImageLoad { .. } => self.gp0_words_remaining >= 1,
            Gp0Mode::ImageStore { .. } => true,
        }
    }

    /// The drawing context of the current registers.
    pub open spec fn spec_rendering_ctx(&self) -> RenderingContext {
        spec_ctx(self.regs)
    }

    /// The registers at power on.
    pub open spec fn spec_initial_regs() -> GpuRegs {
        GpuRegs {
            page_base_x: 0,
            page_base_y: 0,
            semi_transparency: 0,
            texture_depth: TextureDepth::T4Bit,
            dithering: false,
            draw_to_display: false,
            force_set_mask_bit: false,
            preserve_masked_pixels: false,
            field: Field::Top,
            texture_disable: false,
            hres: HorizontalRes::spec_from_fields(0, 0),
            vres: VerticalRes::Y240Lines,
            vmode: VMode::Ntsc,
            display_depth: DisplayDepth::D15Bits,
            interlaced: false,
            display_disabled: true,
            interrupt: false,
            dma_direction: DmaDirection::Off,
            rectange_texture_x_flip: false,
            rectange_texture_y_flip: false,
            texture_window_x_mask: 0,
            texture_window_y_mask: 0,
            texture_window_x_offset: 0,
            texture_window_y_offset: 0,
            drawing_area_left: 0,
            drawing_area_top: 0,
            drawing_area_right: 0,
            drawing_area_bottom: 0,
            drawing_x_offset: 0,
            drawing_y_offset: 0,
            display_vram_x_start: 0,
            display_vram_y_start: 0,
            display_horiz_start: 0,
            display_horiz_end: 0,
            display_line_start: 0,
            display_line_end: 0,
            even: true,
            in_hblank: false,
            in_vblank: false,
            read: 0,
        }
    }

    /// A GPU at power on: no command pending, nothing issued.
    pub fn new() -> (r: Gpu)
        ensures
            r.wf(),
            r.regs == Self::spec_initial_regs(),
            r.gp0_words_remaining == 0,
            r.gp0_mode is Command,
            r.outbox@.len() == 0,
            !r.readback_pending,
    {
        let regs = GpuRegs {
            page_base_x: 0,
            page_base_y: 0,
            semi_transparency: 0,
            texture_depth: TextureDepth::T4Bit,
            dithering: false,
            draw_to_display: false,
            force_set_mask_bit: false,
            preserve_masked_pixels: false,
            field: Field::Top,
            texture_disable: false,
            hres: HorizontalRes::from_fields(0, 0),
            vres: VerticalRes::Y240Lines,
            vmode: VMode::Ntsc,
            display_depth: DisplayDepth::D15Bits,
            interlaced: false,
            display_disabled: true,
            interrupt: false,
            dma_direction: DmaDirection::Off,
            rectange_texture_x_flip: false,
            rectange_texture_y_flip: false,
            texture_window_x_mask: 0,
            texture_window_y_mask: 0,
            texture_window_x_offset: 0,
            texture_window_y_offset: 0,
            drawing_area_left: 0,
            drawing_area_top: 0,
            drawing_area_right: 0,
            drawing_area_bottom: 0,
            drawing_x_offset: 0,
            drawing_y_offset: 0,
            display_vram_x_start: 0,
            display_vram_y_start: 0,
            display_horiz_start: 0,
            display_horiz_end: 0,
            display_line_start: 0,
            display_line_end: 0,
            even: true,
            in_hblank: false,
            in_vblank: false,
            read: 0,
        };
        Gpu {
            regs,
            gp0_command: CommandBuffer::new(),
            gp0_words_remaining: 0,
            gp0_command_method: Gp0Method::Nop,
            gp0_mode: Gp0Mode::Command,
            outbox: Vec::new(),
            readback_pending: false,
            readback_words: 0,
        }
    }

    /// GP0 command bits 29-31.
    pub fn get_command(val: u32) -> (r: u32)
        ensures
            r == val >> 29,
    {
        val >> 29
    }

    /// GP0 command bit 28: gouraud shading.
    pub fn get_shading(val: u32) -> (r: bool)
        ensures
            r == (val & (1u32 << 28u32) != 0),
    {
        val & (0x1 << 28) != 0
    }

    /// GP0 command bit 27: four vertices.
    pub fn get_vertices(val: u32) -> (r: bool)
        ensures
            r == (val & (1u32 << 27u32) != 0),
    {
        val & (0x1 << 27) != 0
    }

    /// GP0 command bit 26: textured.
    pub fn get_textured(val: u32) -> (r: bool)
        ensures
            r == (val & (1u32 << 26u32) != 0),
    {
        val & (0x1 << 26) != 0
    }

    /// GP0 command bit 25: semi-transparent.
    pub fn get_blend_mode(val: u32) -> (r: bool)
        ensures
            r == (val & (1u32 << 25u32) != 0),
    {
        val & (0x1 << 25) != 0
    }

    /// GP0 command bit 24: raw texture (no modulation).
    pub fn get_modulation(val: u32) -> (r: bool)
        ensures
            r == (val & (1u32 << 24u32) != 0),
    {
        val & (0x1 << 24) != 0
    }

    /// The drawing context of the current registers.
    pub fn rendering_ctx(&self) -> (r: RenderingContext)
        ensures
            r == self.spec_rendering_ctx(),
    {
        let g = &self.regs;
        RenderingContext {
            page_base_x: g.page_base_x,
            page_base_y: g.page_base_y,
            semi_transparency: g.semi_transparency,
            texture_depth: g.texture_depth,
            dithering: g.dithering,
            draw_to_display: g.draw_to_display,
            force_set_mask_bit: g.force_set_mask_bit,
            preserve_masked_pixels: g.preserve_masked_pixels,
            texture_disable: g.texture_disable,
            hres: g.hres,
            vres: g.vres,
            display_depth: g.display_depth,
            interlaced: g.interlaced,
            display_disabled: g.display_disabled,
            rectange_texture_x_flip: g.rectange_texture_x_flip,
            rectange_texture_y_flip: g.rectange_texture_y_flip,
            texture_window_x_mask: g.texture_window_x_mask,
            texture_window_y_mask: g.texture_window_y_mask,
            texture_window_x_offset: g.texture_window_x_offset,
            texture_window_y_offset: g.texture_window_y_offset,
            drawing_area_left: g.drawing_area_left,
            drawing_area_top: g.drawing_area_top,
            drawing_area_right: g.drawing_area_right,
            drawing_area_bottom: g.drawing_area_bottom,
            drawing_x_offset: g.drawing_x_offset,
            drawing_y_offset: g.drawing_y_offset,
            display_vram_x_start: g.display_vram_x_start,
            display_vram_y_start: g.display_vram_y_start,
            display_horiz_start: g.display_horiz_start,
            display_horiz_end: g.display_horiz_end,
            display_line_start: g.display_line_start,
            display_line_end: g.display_line_end,
        }
    }

    fn cmd(&self, i: usize) -> (r: u32)
        requires
            i < self.gp0_command.len,
            self.gp0_command.wf(),
        ensures
            r == self.gp0_command@[i as int],
    {
        self.gp0_command.index(i)
    }

    /// GP0(02h): fills a rectangle of VRAM with a colour.
    pub fn gp0_fill_rect(&mut self)
        requires
            old(self).gp0_command_method == Gp0Method::FillRect,
            old(self).gp0_command.wf(),
            old(self).gp0_command.len >= method_words(old(self).gp0_command_method),
        ensures
            final(self).outbox@ == old(self).outbox@ + spec_draw_msgs(
                old(self).gp0_command_method,
                old(self).gp0_command@,
                spec_ctx(old(self).regs),
            ),
            final(self).regs == old(self).regs,
            final(self).gp0_command == old(self).gp0_command,
            final(self).gp0_command_method == old(self).gp0_command_method,
            final(self).gp0_words_remaining == old(self).gp0_words_remaining,
            final(self).gp0_mode == old(self).gp0_mode,
            final(self).readback_pending == old(self).readback_pending,
            final(self).readback_words == old(self).readback_words,
    {
        let ctx = self.rendering_ctx();
        let ghost o = self.outbox@;
        match self.gp0_command_method {
            Gp0Method::FillRect => {
                let c = Colour::from_gp0(self.cmd(0));
                let v = gp0_vertex(self.cmd(1));
                let side = gp0_vertex(self.cmd(2));
                self.outbox.push(RendererMsg::FillRect { v, side, c, ctx });
            },
            _ => {},
        }
        assert(self.outbox@ =~= o + spec_draw_msgs(
            self.gp0_command_method,
            self.gp0_command@,
            spec_ctx(self.regs),
        ));
    }

    /// GP0(40h-47h): a line in one colour.
    pub fn gp0_line_mono(&mut self)
        requires
            old(self).gp0_command_method is LineMono,
            old(self).gp0_command.wf(),
            old(self).gp0_command.len >= method_words(old(self).gp0_command_method),
        ensures
            final(self).outbox@ == old(self).outbox@ + spec_draw_msgs(
                old(self).gp0_command_method,
                old(self).gp0_command@,
                spec_ctx(old(self).regs),
            ),
            final(self).regs == old(self).regs,
            final(self).gp0_command == old(self).gp0_command,
            final(self).gp0_command_method == old(self).gp0_command_method,
            final(self).gp0_words_remaining == old(self).gp0_words_remaining,
            final(self).gp0_mode == old(self).gp0_mode,
            final(self).readback_pending == old(self).readback_pending,
            final(self).readback_words == old(self).readback_words,
    {
        let ctx = self.rendering_ctx();
        let ghost o = self.outbox@;
        match self.gp0_command_method {
            Gp0Method::LineMono { semi } => {
                let c0 = Colour::from_gp0(self.cmd(0));
                let v0 = gp0_vertex(self.cmd(1));
                let v1 = gp0_vertex(self.cmd(2));
                self.outbox.push(
                    RendererMsg::DrawLine { v0, v1, c0, semi_transparent: semi, ctx },
                );
            },
            _ => {},
        }
        assert(self.outbox@ =~= o + spec_draw_msgs(
            self.gp0_command_method,
            self.gp0_command@,
            spec_ctx(self.regs),
        ));
    }

    /// GP0(50h-57h): a line shaded between two colours.
    pub fn gp0_line_shaded(&mut self)
        requires
            old(self).gp0_command_method is LineShaded,
            old(self).gp0_command.wf(),
            old(self).gp0_command.len >= method_words(old(self).gp0_command_method),
        ensures
            final(self).outbox@ == old(self).outbox@ + spec_draw_msgs(
                old(self).gp0_command_method,
                old(self).gp0_command@,
                spec_ctx(old(self).regs),
            ),
            final(self).regs == old(self).regs,
            final(self).gp0_command == old(self).gp0_command,
            final(self).gp0_command_method == old(self).gp0_command_method,
            final(self).gp0_words_remaining == old(self).gp0_words_remaining,
            final(self).gp0_mode == old(self).gp0_mode,
            final(self).readback_pending == old(self).readback_pending,
            final(self).readback_words == old(self).readback_words,
    {
        let ctx = self.rendering_ctx();
        let ghost o = self.outbox@;
        match self.gp0_command_method {
            Gp0Method::LineShaded { semi } => {
                let c0 = Colour::from_gp0(self.cmd(0));
                let v0 = gp0_vertex(self.cmd(1));
                let c1 = Colour::from_gp0(self.cmd(2));
                let v1 = gp0_vertex(self.cmd(3));
                self.outbox.push(
                    RendererMsg::DrawLineShaded { v0, v1, c0, c1, semi_transparent: semi, ctx },
                );
            },
            _ => {},
        }
        assert(self.outbox@ =~= o + spec_draw_msgs(
            self.gp0_command_method,
            self.gp0_command@,
            spec_ctx(self.regs),
        ));
    }

    /// GP0(68h-7Bh, untextured): a dot or an 8x8 or 16x16 rectangle in one colour.
    pub fn gp0_rect_fixed(&mut self)
        requires
            old(self).gp0_command_method is RectFixed,
            old(self).gp0_command.wf(),
            old(self).gp0_command.len >= method_words(old(self).gp0_command_method),
        ensures
            final(self).outbox@ == old(self).outbox@ + spec_draw_msgs(
                old(self).gp0_command_method,
                old(self).gp0_command@,
                spec_ctx(old(self).regs),
            ),
            final(self).regs == old(self).regs,
            final(self).gp0_command == old(self).gp0_command,
            final(self).gp0_command_method == old(self).gp0_command_method,
            final(self).gp0_words_remaining == old(self).gp0_words_remaining,
            final(self).gp0_mode == old(self).gp0_mode,
            final(self).readback_pending == old(self).readback_pending,
            final(self).readback_words == old(self).readback_words,
    {
        let ctx = self.rendering_ctx();
        let ghost o = self.outbox@;
        match self.gp0_command_method {
            Gp0Method::RectFixed { side, semi } => {
                let c = Colour::from_gp0(self.cmd(0));
                let v = gp0_vertex(self.cmd(1));
                self.outbox.push(
                    RendererMsg::DrawRectangle {
                        v,
                        side: Vertex { x: side, y: side },
                        c,
                        semi_transparent: semi,
                        ctx,
                    },
                );
            },
            _ => {},
        }
        assert(self.outbox@ =~= o + spec_draw_msgs(
            self.gp0_command_method,
            self.gp0_command@,
            spec_ctx(self.regs),
        ));
    }

    /// GP0(60h-63h): a rectangle of any size in one colour.
    pub fn gp0_rect_variable(&mut self)
        requires
            old(self).gp0_command_method is RectVariable,
            old(self).gp0_command.wf(),
            old(self).gp0_command.len >= method_words(old(self).gp0_command_method),
        ensures
            final(self).outbox@ == old(self).outbox@ + spec_draw_msgs(
                old(self).gp0_command_method,
                old(self).gp0_command@,
                spec_ctx(old(self).regs),
            ),
            final(self).regs == old(self).regs,
            final(self).gp0_command == old(self).gp0_command,
            final(self).gp0_command_method == old(self).gp0_command_method,
            final(self).gp0_words_remaining == old(self).gp0_words_remaining,
            final(self).gp0_mode == old(self).gp0_mode,
            final(self).readback_pending == old(self).readback_pending,
            final(self).readback_words == old(self).readback_words,
    {
        let ctx = self.rendering_ctx();
        let ghost o = self.outbox@;
        match self.gp0_command_method {
            Gp0Method::RectVariable { semi } => {
                let c = Colour::from_gp0(self.cmd(0));
                let v = gp0_vertex(self.cmd(1));
                let side = gp0_vertex(self.cmd(2));
                self.outbox.push(
                    RendererMsg::DrawRectangle { v, side, c, semi_transparent: semi, ctx },
                );
            },
            _ => {},
        }
        assert(self.outbox@ =~= o + spec_draw_msgs(
            self.gp0_command_method,
            self.gp0_command@,
            spec_ctx(self.regs),
        ));
    }

    /// GP0(6Ch-7Fh, textured): a textured dot or 8x8 or 16x16 rectangle.
    pub fn gp0_rect_texture_fixed(&mut self)
        requires
            old(self).gp0_command_method is RectTextureFixed,
            old(self).gp0_command.wf(),
            old(self).gp0_command.len >= method_words(old(self).gp0_command_method),
        ensures
            final(self).outbox@ == old(self).outbox@ + spec_draw_msgs(
                old(self).gp0_command_method,
                old(self).gp0_command@,
                spec_ctx(old(self).regs),
            ),
            final(self).regs == old(self).regs,
            final(self).gp0_command == old(self).gp0_command,
            final(self).gp0_command_method == old(self).gp0_command_method,
            final(self).gp0_words_remaining == old(self).gp0_words_remaining,
            final(self).gp0_mode == old(self).gp0_mode,
            final(self).readback_pending == old(self).readback_pending,
            final(self).readback_words == old(self).readback_words,
    {
        let ctx = self.rendering_ctx();
        let ghost o = self.outbox@;
        match self.gp0_command_method {
            Gp0Method::RectTextureFixed { side, semi, blend } => {
                let c = Colour::from_gp0(self.cmd(0));
                let v = gp0_vertex(self.cmd(1));
                let pc = gp0_page_clut(self.cmd(2));
                self.outbox.push(
                    RendererMsg::DrawRectangleTextured {
                        v,
                        side: Vertex { x: side, y: side },
                        c,
                        clut: pc[2],
                        _u: pc[0],
                        _v: pc[1],
                        semi_transparent: semi,
                        blend,
                        ctx,
                    },
                );
            },
            _ => {},
        }
        assert(self.outbox@ =~= o + spec_draw_msgs(
            self.gp0_command_method,
            self.gp0_command@,
            spec_ctx(self.regs),
        ));
    }

    /// GP0(64h-67h): a textured rectangle of any size.
    pub fn gp0_rect_texture_variable(&mut self)
        requires
            old(self).gp0_command_method is RectTextureVariable,
            old(self).gp0_command.wf(),
            old(self).gp0_command.len >= method_words(old(self).gp0_command_method),
        ensures
            final(self).outbox@ == old(self).outbox@ + spec_draw_msgs(
                old(self).gp0_command_method,
                old(self).gp0_command@,
                spec_ctx(old(self).regs),
            ),
            final(self).regs == old(self).regs,
            final(self).gp0_command == old(self).gp0_command,
            final(self).gp0_command_method == old(self).gp0_command_method,
            final(self).gp0_words_remaining == old(self).gp0_words_remaining,
            final(self).gp0_mode == old(self).gp0_mode,
            final(self).readback_pending == old(self).readback_pending,
            final(self).readback_words == old(self).readback_words,
    {
        let ctx = self.rendering_ctx();
        let ghost o = self.outbox@;
        match self.gp0_command_method {
            Gp0Method::RectTextureVariable { semi, blend } => {
                let c = Colour::from_gp0(self.cmd(0));
                let v = gp0_vertex(self.cmd(1));
                let pc = gp0_page_clut(self.cmd(2));
                let side = gp0_vertex(self.cmd(3));
                self.outbox.push(
                    RendererMsg::DrawRectangleTextured {
                        v,
                        side,
                        c,
                        clut: pc[2],
                        _u: pc[0],
                        _v: pc[1],
                        semi_transparent: semi,
                        blend,
                        ctx,
                    },
                );
            },
            _ => {},
        }
        assert(self.outbox@ =~= o + spec_draw_msgs(
            self.gp0_command_method,
            self.gp0_command@,
            spec_ctx(self.regs),
        ));
    }

    /// GP0(20h-2Bh): a triangle or quad in one colour.
    pub fn gp0_poly_mono(&mut self)
        requires
            old(self).gp0_command_method is PolyMono,
            old(self).gp0_command.wf(),
            old(self).gp0_command.len >= method_words(old(self).gp0_command_method),
        ensures
            final(self).outbox@ == old(self).outbox@ + spec_draw_msgs(
                old(self).gp0_command_method,
                old(self).gp0_command@,
                spec_ctx(old(self).regs),
            ),
            final(self).regs == old(self).regs,
            final(self).gp0_command == old(self).gp0_command,
            final(self).gp0_command_method == old(self).gp0_command_method,
            final(self).gp0_words_remaining == old(self).gp0_words_remaining,
            final(self).gp0_mode == old(self).gp0_mode,
            final(self).readback_pending == old(self).readback_pending,
            final(self).readback_words == old(self).readback_words,
    {
        let ctx = self.rendering_ctx();
        let ghost o = self.outbox@;
        match self.gp0_command_method {
            Gp0Method::PolyMono { quad, semi } => {
                let c = Colour::from_gp0(self.cmd(0));
                let v0 = gp0_vertex(self.cmd(1));
                let v1 = gp0_vertex(self.cmd(2));
                let v2 = gp0_vertex(self.cmd(3));
                self.outbox.push(
                    RendererMsg::DrawTriangleMono { c, v0, v1, v2, semi_transparent: semi, ctx },
                );
                if quad {
                    let v3 = gp0_vertex(self.cmd(4));
                    self.outbox.push(
                        RendererMsg::DrawTriangleMono {
                            c,
                            v0: v1,
                            v1: v2,
                            v2: v3,
                            semi_transparent: semi,
                            ctx,
                        },
                    );
                }
            },
            _ => {},
        }
        assert(self.outbox@ =~= o + spec_draw_msgs(
            self.gp0_command_method,
            self.gp0_command@,
            spec_ctx(self.regs),
        ));
    }

    /// GP0(30h-3Bh): a Gouraud-shaded triangle or quad.
    pub fn gp0_poly_shaded(&mut self)
        requires
            old(self).gp0_command_method is PolyShaded,
            old(self).gp0_command.wf(),
            old(self).gp0_command.len >= method_words(old(self).gp0_command_method),
        ensures
            final(self).outbox@ == old(self).outbox@ + spec_draw_msgs(
                old(self).gp0_command_method,
                old(self).gp0_command@,
                spec_ctx(old(self).regs),
            ),
            final(self).regs == old(self).regs,
            final(self).gp0_command == old(self).gp0_command,
            final(self).gp0_command_method == old(self).gp0_command_method,
            final(self).gp0_words_remaining == old(self).gp0_words_remaining,
            final(self).gp0_mode == old(self).gp0_mode,
            final(self).readback_pending == old(self).readback_pending,
            final(self).readback_words == old(self).readback_words,
    {
        let ctx = self.rendering_ctx();
        let ghost o = self.outbox@;
        match self.gp0_command_method {
            Gp0Method::PolyShaded { quad, semi } => {
                let c0 = gp0_colour(self.cmd(0));
                let v0 = gp0_vertex(self.cmd(1));
                let c1 = gp0_colour(self.cmd(2));
                let v1 = gp0_vertex(self.cmd(3));
                let c2 = gp0_colour(self.cmd(4));
                let v2 = gp0_vertex(self.cmd(5));
                self.outbox.push(
                    RendererMsg::DrawTriangleShaded {
                        vs: [v0, v1, v2],
                        cs: [c0, c1, c2],
                        semi_transparent: semi,
                        ctx,
                    },
                );
                if quad {
                    let c3 = gp0_colour(self.cmd(6));
                    let v3 = gp0_vertex(self.cmd(7));
                    self.outbox.push(
                        RendererMsg::DrawTriangleShaded {
                            vs: [v1, v2, v3],
                            cs: [c1, c2, c3],
                            semi_transparent: semi,
                            ctx,
                        },
                    );
                }
            },
            _ => {},
        }
        assert(self.outbox@ =~= o + spec_draw_msgs(
            self.gp0_command_method,
            self.gp0_command@,
            spec_ctx(self.regs),
        ));
    }

    /// GP0(24h-2Fh): a textured triangle or quad.
    pub fn gp0_poly_texture(&mut self)
        requires
            old(self).gp0_command_method is PolyTexture,
            old(self).gp0_command.wf(),
            old(self).gp0_command.len >= method_words(old(self).gp0_command_method),
        ensures
            final(self).outbox@ == old(self).outbox@ + spec_draw_msgs(
                old(self).gp0_command_method,
                old(self).gp0_command@,
                spec_ctx(old(self).regs),
            ),
            final(self).regs == old(self).regs,
            final(self).gp0_command == old(self).gp0_command,
            final(self).gp0_command_method == old(self).gp0_command_method,
            final(self).gp0_words_remaining == old(self).gp0_words_remaining,
            final(self).gp0_mode == old(self).gp0_mode,
            final(self).readback_pending == old(self).readback_pending,
            final(self).readback_words == old(self).readback_words,
    {
        let ctx = self.rendering_ctx();
        let ghost o = self.outbox@;
        match self.gp0_command_method {
            Gp0Method::PolyTexture { quad, semi, blend } => {
                let color = Colour::from_gp0(self.cmd(0));
                let v0 = gp0_vertex(self.cmd(1));
                let p0 = gp0_page_clut(self.cmd(2));
                let v1 = gp0_vertex(self.cmd(3));
                let p1 = gp0_page_clut(self.cmd(4));
                let v2 = gp0_vertex(self.cmd(5));
                let p2 = gp0_page_clut(self.cmd(6));
                self.outbox.push(
                    RendererMsg::DrawTriangleTextured {
                        color,
                        clut: p0[2],
                        page: p1[2],
                        vs: [v0, v1, v2],
                        uvs: [[p0[0], p0[1]], [p1[0], p1[1]], [p2[0], p2[1]]],
                        semi_transparent: semi,
                        blend,
                        ctx,
                    },
                );
                if quad {
                    let v3 = gp0_vertex(self.cmd(7));
                    let p3 = gp0_page_clut(self.cmd(8));
                    self.outbox.push(
                        RendererMsg::DrawTriangleTextured {
                            color,
                            clut: p0[2],
                            page: p1[2],
                            vs: [v1, v2, v3],
                            uvs: [[p1[0], p1[1]], [p2[0], p2[1]], [p3[0], p3[1]]],
                            semi_transparent: semi,
                            blend,
                            ctx,
                        },
                    );
                }
            },
            _ => {},
        }
        assert(self.outbox@ =~= o + spec_draw_msgs(
            self.gp0_command_method,
            self.gp0_command@,
            spec_ctx(self.regs),
        ));
    }

    /// GP0(34h-3Fh): a textured, shaded triangle or quad.
    pub fn gp0_poly_texture_shaded(&mut self)
        requires
            old(self).gp0_command_method is PolyTextureShaded,
            old(self).gp0_command.wf(),
            old(self).gp0_command.len >= method_words(old(self).gp0_command_method),
        ensures
            final(self).outbox@ == old(self).outbox@ + spec_draw_msgs(
                old(self).gp0_command_method,
                old(self).gp0_command@,
                spec_ctx(old(self).regs),
            ),
            final(self).regs == old(self).regs,
            final(self).gp0_command == old(self).gp0_command,
            final(self).gp0_command_method == old(self).gp0_command_method,
            final(self).gp0_words_remaining == old(self).gp0_words_remaining,
            final(self).gp0_mode == old(self).gp0_mode,
            final(self).readback_pending == old(self).readback_pending,
            final(self).readback_words == old(self).readback_words,
    {
        let ctx = self.rendering_ctx();
        let ghost o = self.outbox@;
        match self.gp0_command_method {
            Gp0Method::PolyTextureShaded { quad, semi, blend } => {
                let c0 = Colour::from_gp0(self.cmd(0));
                let c1 = Colour::from_gp0(self.cmd(3));
                let c2 = Colour::from_gp0(self.cmd(6));
                let v0 = gp0_vertex(self.cmd(1));
                let p0 = gp0_page_clut(self.cmd(2));
                let v1 = gp0_vertex(self.cmd(4));
                let p1 = gp0_page_clut(self.cmd(5));
                let v2 = gp0_vertex(self.cmd(7));
                let p2 = gp0_page_clut(self.cmd(8));
                self.outbox.push(
                    RendererMsg::DrawTriangleTexturedShaded {
                        cs: [c0, c1, c2],
                        clut: p0[2],
                        page: p1[2],
                        vs: [v0, v1, v2],
                        uvs: [[p0[0], p0[1]], [p1[0], p1[1]], [p2[0], p2[1]]],
                        semi_transparent: semi,
                        blend,
                        ctx,
                    },
                );
                if quad {
                    let c3 = Colour::from_gp0(self.cmd(9));
                    let v3 = gp0_vertex(self.cmd(10));
                    let p3 = gp0_page_clut(self.cmd(11));
                    self.outbox.push(
                        RendererMsg::DrawTriangleTexturedShaded {
                            cs: [c1, c2, c3],
                            clut: p0[2],
                            page: p1[2],
                            vs: [v1, v2, v3],
                            uvs: [[p1[0], p1[1]], [p2[0], p2[1]], [p3[0], p3[1]]],
                            semi_transparent: semi,
                            blend,
                            ctx,
                        },
                    );
                }
            },
            _ => {},
        }
        assert(self.outbox@ =~= o + spec_draw_msgs(
            self.gp0_command_method,
            self.gp0_command@,
            spec_ctx(self.regs),
        ));
    }

    /// GP0(80h): copies a rectangle within VRAM.
    pub fn gp0_vram_to_vram_blit(&mut self)
        requires
            old(self).gp0_command_method == Gp0Method::VramToVramBlit,
            old(self).gp0_command.wf(),
            old(self).gp0_command.len >= 4,
        ensures
            final(self).outbox@ == old(self).outbox@ + spec_draw_msgs(
                old(self).gp0_command_method,
                old(self).gp0_command@,
                spec_ctx(old(self).regs),
            ),
            final(self).regs == old(self).regs,
            final(self).gp0_command == old(self).gp0_command,
            final(self).gp0_command_method == old(self).gp0_command_method,
            final(self).gp0_words_remaining == old(self).gp0_words_remaining,
            final(self).gp0_mode == old(self).gp0_mode,
            final(self).readback_pending == old(self).readback_pending,
            final(self).readback_words == old(self).readback_words,
    {
        let ghost o = self.outbox@;
        let src = gp0_vertex(self.cmd(1));
        let dst = gp0_vertex(self.cmd(2));
        let size = gp0_vertex(self.cmd(3));
        self.outbox.push(RendererMsg::Vram2VramBlit { src, dst, size });
        assert(self.outbox@ =~= o + spec_draw_msgs(
            self.gp0_command_method,
            self.gp0_command@,
            spec_ctx(self.regs),
        ));
    }

    /// Issues the drawing requests of the collected drawing command.
    fn gp0_draw(&mut self)
        requires
            is_draw_method(old(self).gp0_command_method),
            old(self).gp0_command.wf(),
            old(self).gp0_command.len >= method_words(old(self).gp0_command_method),
        ensures
            final(self).outbox@ == old(self).outbox@ + spec_draw_msgs(
                old(self).gp0_command_method,
                old(self).gp0_command@,
                spec_ctx(old(self).regs),
            ),
            final(self).regs == old(self).regs,
            final(self).gp0_command == old(self).gp0_command,
            final(self).gp0_command_method == old(self).gp0_command_method,
            final(self).gp0_words_remaining == old(self).gp0_words_remaining,
            final(self).gp0_mode == old(self).gp0_mode,
            final(self).readback_pending == old(self).readback_pending,
            final(self).readback_words == old(self).readback_words,
    {
        match self.gp0_command_method {
            Gp0Method::FillRect => self.gp0_fill_rect(),
            Gp0Method::LineMono { .. } => self.gp0_line_mono(),
            Gp0Method::LineShaded { .. } => self.gp0_line_shaded(),
            Gp0Method::RectFixed { .. } => self.gp0_rect_fixed(),
            Gp0Method::RectVariable { .. } => self.gp0_rect_variable(),
            Gp0Method::RectTextureFixed { .. } => self.gp0_rect_texture_fixed(),
            Gp0Method::RectTextureVariable { .. } => self.gp0_rect_texture_variable(),
            Gp0Method::PolyMono { .. } => self.gp0_poly_mono(),
            Gp0Method::PolyShaded { .. } => self.gp0_poly_shaded(),
            Gp0Method::PolyTexture { .. } => self.gp0_poly_texture(),
            Gp0Method::PolyTextureShaded { .. } => self.gp0_poly_texture_shaded(),
            _ => self.gp0_vram_to_vram_blit(),
        }
    }

    /// GP0(E1h) with the word `val`.
    pub fn gp0_draw_mode(&mut self, val: u32)
        ensures
            final(self).regs == spec_apply_setting(Gp0Method::DrawMode, old(self).regs, val),
            final(self).gp0_command == old(self).gp0_command,
            final(self).gp0_command_method == old(self).gp0_command_method,
            final(self).gp0_words_remaining == old(self).gp0_words_remaining,
            final(self).gp0_mode == old(self).gp0_mode,
            final(self).outbox == old(self).outbox,
            final(self).readback_pending == old(self).readback_pending,
            final(self).readback_words == old(self).readback_words,
    {
        proof {
            crate::bitfacts::lemma_and_le_u32(val, 0xf);
            crate::bitfacts::lemma_and_le_u32(val >> 4, 1);
            crate::bitfacts::lemma_and_le_u32(val >> 5, 3);
            crate::bitfacts::lemma_and_le_u32(val >> 7, 3);
        }
        self.regs.page_base_x = (val & 0xf) as u8;
        self.regs.page_base_y = ((val >> 4) & 1) as u8;
        self.regs.semi_transparency = ((val >> 5) & 3) as u8;
        self.regs.texture_depth = match (val >> 7) & 3 {
            0 => TextureDepth::T4Bit,
            1 => TextureDepth::T8Bit,
            _ => TextureDepth::T15Bit,
        };
        self.regs.dithering = ((val >> 9) & 1) != 0;
        self.regs.draw_to_display = ((val >> 10) & 1) != 0;
        self.regs.texture_disable = ((val >> 11) & 1) != 0;
        self.regs.rectange_texture_x_flip = ((val >> 12) & 1) != 0;
        self.regs.rectange_texture_y_flip = ((val >> 13) & 1) != 0;
    }

    /// GP0(E2h) with the word `val`.
    pub fn gp0_texture_window(&mut self, val: u32)
        ensures
            final(self).regs == spec_apply_setting(Gp0Method::TextureWindow, old(self).regs, val),
            final(self).gp0_command == old(self).gp0_command,
            final(self).gp0_command_method == old(self).gp0_command_method,
            final(self).gp0_words_remaining == old(self).gp0_words_remaining,
            final(self).gp0_mode == old(self).gp0_mode,
            final(self).outbox == old(self).outbox,
            final(self).readback_pending == old(self).readback_pending,
            final(self).readback_words == old(self).readback_words,
    {
        proof {
            crate::bitfacts::lemma_and_le_u32(val, 0x1f);
            crate::bitfacts::lemma_and_le_u32(val >> 5, 0x1f);
            crate::bitfacts::lemma_and_le_u32(val >> 10, 0x1f);
            crate::bitfacts::lemma_and_le_u32(val >> 15, 0x1f);
        }
        self.regs.texture_window_x_mask = (val & 0x1f) as u8;
        self.regs.texture_window_y_mask = ((val >> 5) & 0x1f) as u8;
        self.regs.texture_window_x_offset = ((val >> 10) & 0x1f) as u8;
        self.regs.texture_window_y_offset = ((val >> 15) & 0x1f) as u8;
    }

    /// GP0(E3h) with the word `val`.
    pub fn gp0_drawing_area_top_left(&mut self, val: u32)
        ensures
            final(self).regs == spec_apply_setting(Gp0Method::DrawingAreaTopLeft, old(self).regs, val),
            final(self).gp0_command == old(self).gp0_command,
            final(self).gp0_command_method == old(self).gp0_command_method,
            final(self).gp0_words_remaining == old(self).gp0_words_remaining,
            final(self).gp0_mode == old(self).gp0_mode,
            final(self).outbox == old(self).outbox,
            final(self).readback_pending == old(self).readback_pending,
            final(self).readback_words == old(self).readback_words,
    {
        proof {
            crate::bitfacts::lemma_and_le_u32(val, 0x3ff);
            crate::bitfacts::lemma_and_le_u32(val >> 10, 0x3ff);
        }
        self.regs.drawing_area_top = ((val >> 10) & 0x3ff) as u16;
        self.regs.drawing_area_left = (val & 0x3ff) as u16;
    }

    /// GP0(E4h) with the word `val`.
    pub fn gp0_drawing_area_bottom_right(&mut self, val: u32)
        ensures
            final(self).regs == spec_apply_setting(Gp0Method::DrawingAreaBottomRight, old(self).regs, val),
            final(self).gp0_command == old(self).gp0_command,
            final(self).gp0_command_method == old(self).gp0_command_method,
            final(self).gp0_words_remaining == old(self).gp0_words_remaining,
            final(self).gp0_mode == old(self).gp0_mode,
            final(self).outbox == old(self).outbox,
            final(self).readback_pending == old(self).readback_pending,
            final(self).readback_words == old(self).readback_words,
    {
        proof {
            crate::bitfacts::lemma_and_le_u32(val, 0x3ff);
            crate::bitfacts::lemma_and_le_u32(val >> 10, 0x3ff);
        }
        self.regs.drawing_area_bottom = ((val >> 10) & 0x3ff) as u16;
        self.regs.drawing_area_right = (val & 0x3ff) as u16;
    }

    /// GP0(E5h) with the word `val`.
    pub fn gp0_drawing_offset(&mut self, val: u32)
        ensures
            final(self).regs == spec_apply_setting(Gp0Method::DrawingOffset, old(self).regs, val),
            final(self).gp0_command == old(self).gp0_command,
            final(self).gp0_command_method == old(self).gp0_command_method,
            final(self).gp0_words_remaining == old(self).gp0_words_remaining,
            final(self).gp0_mode == old(self).gp0_mode,
            final(self).outbox == old(self).outbox,
            final(self).readback_pending == old(self).readback_pending,
            final(self).readback_words == old(self).readback_words,
    {
        let x = val & 0x7ff;
        let y = (val >> 11) & 0x7ff;
        assert(x <= 0x7ff && y <= 0x7ff) by (bit_vector)
            requires
                x == val & 0x7ff,
                y == (val >> 11) & 0x7ff,
        ;
        let xo: i32 = if x >= 0x400 { x as i32 - 0x800 } else { x as i32 };
        let yo: i32 = if y >= 0x400 { y as i32 - 0x800 } else { y as i32 };
        self.regs.drawing_x_offset = xo as i16;
        self.regs.drawing_y_offset = yo as i16;
    }

    /// GP0(E6h) with the word `val`.
    pub fn gp0_mask_bit_setting(&mut self, val: u32)
        ensures
            final(self).regs == spec_apply_setting(Gp0Method::MaskBitSetting, old(self).regs, val),
            final(self).gp0_command == old(self).gp0_command,
            final(self).gp0_command_method == old(self).gp0_command_method,
            final(self).gp0_words_remaining == old(self).gp0_words_remaining,
            final(self).gp0_mode == old(self).gp0_mode,
            final(self).outbox == old(self).outbox,
            final(self).readback_pending == old(self).readback_pending,
            final(self).readback_words == old(self).readback_words,
    {
        self.regs.force_set_mask_bit = (val & 1) != 0;
        self.regs.preserve_masked_pixels = (val & 2) != 0;
    }

    /// Applies the one-word settings command `val` handled by `m`.
    fn gp0_setting(&mut self, m: Gp0Method, val: u32)
        ensures
            final(self).regs == spec_apply_setting(m, old(self).regs, val),
            final(self).gp0_command == old(self).gp0_command,
            final(self).gp0_command_method == old(self).gp0_command_method,
            final(self).gp0_words_remaining == old(self).gp0_words_remaining,
            final(self).gp0_mode == old(self).gp0_mode,
            final(self).outbox == old(self).outbox,
            final(self).readback_pending == old(self).readback_pending,
            final(self).readback_words == old(self).readback_words,
    {
        match m {
            Gp0Method::DrawMode => self.gp0_draw_mode(val),
            Gp0Method::TextureWindow => self.gp0_texture_window(val),
            Gp0Method::DrawingAreaTopLeft => self.gp0_drawing_area_top_left(val),
            Gp0Method::DrawingAreaBottomRight => self.gp0_drawing_area_bottom_right(val),
            Gp0Method::DrawingOffset => self.gp0_drawing_offset(val),
            Gp0Method::MaskBitSetting => self.gp0_mask_bit_setting(val),
            _ => {},
        }
    }

    /// Starts a CPU-to-VRAM copy (GP0(A0h)) or a VRAM-to-CPU copy (GP0(C0h))
    /// described by the collected command.
    fn gp0_image_transfer(&mut self, store: bool)
        requires
            old(self).gp0_command.wf(),
            old(self).gp0_command.len >= 3,
        ensures
            spec_image_transfer(*old(self), *final(self), store),
    {
        let pos = self.cmd(1);
        let res = self.cmd(2);
        let x = (pos & 0xffff) as u16;
        let y = (pos >> 16) as u16;
        assert(pos >> 16 <= 0xffff && pos & 0xffff <= 0xffff) by (bit_vector);
        let mut width = res & 0xffff;
        if width == 0 {
            width = 1024;
        }
        let mut height = res >> 16;
        if height == 0 {
            height = 512;
        }
        assert(res & 0xffff <= 0xffff && res >> 16 <= 0xffff) by (bit_vector);
        assert(width * height <= 0xffff * 0xffff) by (nonlinear_arith)
            requires
                width <= 0xffff,
                height <= 0xffff,
        ;
        assert(width * height >= 1) by (nonlinear_arith)
            requires
                width >= 1,
                height >= 1,
        ;
        let imgsize = width * height;
        let ip1 = imgsize + 1;
        let imgsize2 = ip1 & !1u32;
        assert(imgsize2 >= 2) by (bit_vector)
            requires
                ip1 >= 2,
                imgsize2 == ip1 & !1u32,
        ;
        let words = imgsize2 / 2;
        self.gp0_words_remaining = words;
        if !store {
            self.gp0_mode = Gp0Mode::ImageLoad {
                top_left: (x, y),
                resolution: (width as u16, height as u16),
                data: Vec::new(),
            };
        } else {
            self.outbox.push(
                RendererMsg::VramToCpuCopy {
                    top_left: (x, y),
                    size: (width as u16, height as u16),
                },
            );
            self.gp0_mode = Gp0Mode::ImageStore { current_word: 0, data: Vec::new() };
            self.readback_pending = true;
            self.readback_words = words;
        }
    }

    /// GP0(A0h): sets up a copy of pixel data from the CPU to VRAM.
    pub fn gp0_image_load(&mut self)
        requires
            old(self).gp0_command.wf(),
            old(self).gp0_command.len >= 3,
        ensures
            spec_image_transfer(*old(self), *final(self), false),
    {
        self.gp0_image_transfer(false)
    }

    /// GP0(C0h): sets up a copy of pixel data from VRAM to the CPU.
    pub fn gp0_image_store(&mut self)
        requires
            old(self).gp0_command.wf(),
            old(self).gp0_command.len >= 3,
        ensures
            spec_image_transfer(*old(self), *final(self), true),
    {
        self.gp0_image_transfer(true)
    }

    /// GP0(00h): no operation.
    pub fn gp0_nop(&mut self)
        ensures
            *final(self) == *old(self),
    {
    }

    /// GP0(01h): clears the texture cache, which is not modelled.
    pub fn gp0_clear_cache(&mut self)
        ensures
            *final(self) == *old(self),
    {
    }

    /// Runs the handler of the collected command.
    fn run_gp0_method(&mut self)
        requires
            old(self).gp0_command.wf(),
            old(self).gp0_command.len >= method_words(old(self).gp0_command_method),
            old(self).gp0_mode is Command,
            old(self).gp0_words_remaining == 0,
        ensures
            spec_run_post(
                old(self).gp0_command_method,
                old(self).gp0_command@,
                *old(self),
                *final(self),
            ),
            final(self).gp0_command == old(self).gp0_command,
            final(self).wf(),
    {
        let m = self.gp0_command_method;
        match m {
            Gp0Method::ImageLoad => self.gp0_image_load(),
            Gp0Method::ImageStore => self.gp0_image_store(),
            Gp0Method::Nop => self.gp0_nop(),
            Gp0Method::ClearCache => self.gp0_clear_cache(),
            Gp0Method::DrawMode | Gp0Method::TextureWindow | Gp0Method::DrawingAreaTopLeft
            | Gp0Method::DrawingAreaBottomRight | Gp0Method::DrawingOffset
            | Gp0Method::MaskBitSetting => {
                let v = self.cmd(0);
                self.gp0_setting(m, v);
            },
            _ => self.gp0_draw(),
        }
    }

    /// Takes a word written to GP0: collects command words and runs each
    /// command once complete, takes pixel data of CPU-to-VRAM copies, and
    /// follows poly-lines until their terminator.
    pub fn gp0(&mut self, val: u32)
        requires
            old(self).wf(),
            old(self).gp0_words_remaining == 0 ==> spec_gp0_decode(val >> 24) is Some,
        ensures
            final(self).wf(),
            spec_gp0_post(*old(self), *final(self), val),
            final(self).readback_pending == old(self).readback_pending || (
            final(self).readback_pending && final(self).gp0_mode is ImageStore),
    {
        if self.gp0_words_remaining == 0 {
            assert(val >> 24 <= 0xff) by (bit_vector);
            let d = gp0_decode(val >> 24).unwrap();
            match d.polyline {
                Some(c) => self.gp0_mode = Gp0Mode::Polyline(c),
                None => {},
            }
            self.gp0_words_remaining = d.len;
            self.gp0_command_method = d.method;
            self.gp0_command.clear();
        }
        self.gp0_words_remaining = self.gp0_words_remaining - 1;
        let mut mode = Gp0Mode::Command;
        std::mem::swap(&mut mode, &mut self.gp0_mode);
        match mode {
            Gp0Mode::Command => self.gp0_command_word(val),
            Gp0Mode::ImageLoad { top_left, resolution, data } => {
                self.gp0_image_load_word(top_left, resolution, data, val)
            },
            Gp0Mode::ImageStore { current_word, data } => {
                self.gp0_mode = Gp0Mode::ImageStore { current_word, data };
            },
            Gp0Mode::Polyline(color) => self.gp0_polyline_word(color, val),
        }
    }

    /// A word of a command in command mode.
    fn gp0_command_word(&mut self, val: u32)
        requires
            old(self).gp0_mode is Command,
            old(self).gp0_command.wf(),
            old(self).gp0_command.len + old(self).gp0_words_remaining < 12,
            old(self).gp0_words_remaining == 0 ==> old(self).gp0_command.len + 1 >= method_words(
                old(self).gp0_command_method,
            ),
            old(self).gp0_words_remaining > 0 ==> old(self).gp0_command.len + 1
                + old(self).gp0_words_remaining >= method_words(old(self).gp0_command_method),
        ensures
            final(self).wf(),
            final(self).readback_pending == old(self).readback_pending || (
            final(self).readback_pending && final(self).gp0_mode is ImageStore),
            old(self).gp0_words_remaining > 0 ==> {
                &&& final(self).gp0_mode is Command
                &&& final(self).gp0_command@ == old(self).gp0_command@.push(val)
                &&& final(self).gp0_words_remaining == old(self).gp0_words_remaining
                &&& final(self).gp0_command_method == old(self).gp0_command_method
                &&& final(self).regs == old(self).regs
                &&& final(self).outbox@ == old(self).outbox@
            },
            old(self).gp0_words_remaining == 0 ==> spec_run_post(
                old(self).gp0_command_method,
                old(self).gp0_command@.push(val),
                *old(self),
                *final(self),
            ),
    {
        self.gp0_command.push_word(val);
        if self.gp0_words_remaining == 0 {
            self.run_gp0_method();
        }
    }

    /// A word of pixel data of a CPU-to-VRAM copy.
    fn gp0_image_load_word(
        &mut self,
        top_left: (u16, u16),
        resolution: (u16, u16),
        data: Vec<u32>,
        val: u32,
    )
        requires
            old(self).gp0_mode is Command,
            old(self).gp0_command.wf(),
        ensures
            final(self).gp0_command == old(self).gp0_command,
            final(self).gp0_command_method == old(self).gp0_command_method,
            final(self).gp0_words_remaining == old(self).gp0_words_remaining,
            final(self).readback_pending == old(self).readback_pending,
            final(self).regs == old(self).regs,
            old(self).gp0_words_remaining == 0 ==> {
                &&& final(self).gp0_mode is Command
                &&& final(self).outbox@.len() == old(self).outbox@.len() + 1
                &&& final(self).outbox@.subrange(0, old(self).outbox@.len() as int) == old(
                    self,
                ).outbox@
                &&& final(self).outbox@.last() matches RendererMsg::CpuToVramCopy {
                    top_left: t,
                    size: s,
                    data: d,
                } && t == top_left && s == resolution && d@ == data@.push(val)
            },
            old(self).gp0_words_remaining > 0 ==> {
                &&& final(self).outbox@ == old(self).outbox@
                &&& final(self).gp0_mode matches Gp0Mode::ImageLoad {
                    top_left: t,
                    resolution: r,
                    data: d,
                } && t == top_left && r == resolution && d@ == data@.push(val)
            },
    {
        let mut data = data;
        data.push(val);
        if self.gp0_words_remaining == 0 {
            let ghost o = self.outbox@;
            self.outbox.push(RendererMsg::CpuToVramCopy { top_left, size: resolution, data });
            assert(self.outbox@.subrange(0, o.len() as int) =~= o);
        } else {
            self.gp0_mode = Gp0Mode::ImageLoad { top_left, resolution, data };
        }
    }

    /// A word of a poly-line: a vertex (preceded by its colour when `color`)
    /// or the terminator.
    fn gp0_polyline_word(&mut self, color: bool, val: u32)
        requires
            old(self).gp0_mode is Command,
            old(self).gp0_command.wf(),
            old(self).gp0_command.len <= (if color {
                3int
            } else {
                2int
            }),
            is_draw_method(old(self).gp0_command_method),
            method_words(old(self).gp0_command_method) == (if color {
                4nat
            } else {
                3nat
            }),
        ensures
            final(self).wf(),
            final(self).readback_pending == old(self).readback_pending,
            final(self).regs == old(self).regs,
            spec_polyline_end(val) ==> {
                &&& final(self).gp0_mode is Command
                &&& final(self).gp0_words_remaining == 0
                &&& final(self).gp0_command@ == old(self).gp0_command@
                &&& final(self).outbox@ == old(self).outbox@
            },
            !spec_polyline_end(val) ==> {
                let cmd1 = old(self).gp0_command@.push(val);
                &&& final(self).gp0_mode == Gp0Mode::Polyline(color)
                &&& final(self).gp0_words_remaining == 2
                &&& final(self).gp0_command_method == old(self).gp0_command_method
                &&& if color && cmd1.len() == 4 {
                    &&& final(self).outbox@ == old(self).outbox@ + spec_draw_msgs(
                        old(self).gp0_command_method,
                        cmd1,
                        spec_ctx(old(self).regs),
                    )
                    &&& final(self).gp0_command@ == seq![cmd1[2], cmd1[3]]
                } else if !color && cmd1.len() == 3 {
                    &&& final(self).outbox@ == old(self).outbox@ + spec_draw_msgs(
                        old(self).gp0_command_method,
                        cmd1,
                        spec_ctx(old(self).regs),
                    )
                    &&& final(self).gp0_command@ == seq![cmd1[0], cmd1[2]]
                } else {
                    &&& final(self).outbox@ == old(self).outbox@
                    &&& final(self).gp0_command@ == cmd1
                }
            },
    {
        if (val & 0xF000F000) == 0x50005000 {
            self.gp0_words_remaining = 0;
            return;
        }
        self.gp0_mode = Gp0Mode::Polyline(color);
        self.gp0_command.push_word(val);
        let ghost c1 = self.gp0_command@;
        if color {
            if self.gp0_command.len == 4 {
                self.gp0_draw();
                let w2 = self.cmd(2);
                let w3 = self.cmd(3);
                self.gp0_command.buffer[0] = w2;
                self.gp0_command.buffer[1] = w3;
                self.gp0_command.len = self.gp0_command.len - 2;
                assert(self.gp0_command@ =~= seq![c1[2], c1[3]]);
            }
        } else {
            if self.gp0_command.len == 3 {
                self.gp0_draw();
                let w2 = self.cmd(2);
                self.gp0_command.buffer[1] = w2;
                self.gp0_command.len = self.gp0_command.len - 1;
                assert(self.gp0_command@ =~= seq![c1[0], c1[2]]);
            }
        }
        self.gp0_words_remaining = 2;
    }
}


/// 1 for `true`, 0 for `false`.
pub open spec fn b2u(b: bool) -> u32 {
    if b {
        1
    } else {
        0
    }
}

fn bit_of(b: bool) -> (r: u32)
    ensures
        r == b2u(b),
{
    if b {
        1
    } else {
        0
    }
}

impl Gpu {
    /// Whether GPUREAD can be read: during a VRAM-to-CPU copy the data must
    /// have been delivered and words must remain.
    pub open spec fn read_ok(&self) -> bool {
        match self.gp0_mode {
            Gp0Mode::ImageStore { current_word, data } => !self.readback_pending
                && self.gp0_words_remaining > 0 && current_word < data@.len(),
            _ => true,
        }
    }

    /// GPUREAD: the next word of a VRAM-to-CPU copy, or the latched value.
    pub fn read(&mut self) -> (r: u32)
        requires
            old(self).read_ok(),
            old(self).wf(),
        ensures
            final(self).wf(),
            final(self).regs == old(self).regs,
            final(self).outbox@ == old(self).outbox@,
            final(self).gp0_command == old(self).gp0_command,
            final(self).gp0_command_method == old(self).gp0_command_method,
            final(self).readback_pending == old(self).readback_pending,
            match old(self).gp0_mode {
                Gp0Mode::ImageStore { current_word, data } => {
                    &&& r == data@[current_word as int]
                    &&& final(self).gp0_words_remaining == old(self).gp0_words_remaining - 1
                    &&& if old(self).gp0_words_remaining == 1 {
                        final(self).gp0_mode is Command
                    } else {
                        final(self).gp0_mode matches Gp0Mode::ImageStore {
                            current_word: cw,
                            data: d,
                        } && cw == current_word + 1 && d@ == data@
                    }
                },
                _ => {
                    &&& r == old(self).regs.read
                    &&& final(self).gp0_mode == old(self).gp0_mode
                    &&& final(self).gp0_words_remaining == old(self).gp0_words_remaining
                },
            },
    {
        let mut mode = Gp0Mode::Command;
        std::mem::swap(&mut mode, &mut self.gp0_mode);
        match mode {
            Gp0Mode::ImageStore { current_word, data } => {
                let n = data.len();
                let word = data[current_word];
                self.gp0_words_remaining = self.gp0_words_remaining - 1;
                if self.gp0_words_remaining != 0 {
                    self.gp0_mode = Gp0Mode::ImageStore { current_word: current_word + 1, data };
                }
                word
            },
            other => {
                self.gp0_mode = other;
                self.regs.read
            },
        }
    }

    /// Hands over the words of the VRAM-to-CPU copy that GP0(C0h) requested.
    pub fn complete_image_store(&mut self, data: Vec<u32>)
        requires
            old(self).readback_pending,
            data@.len() == old(self).readback_words,
        ensures
            !final(self).readback_pending,
            final(self).regs == old(self).regs,
            final(self).outbox@ == old(self).outbox@,
            final(self).gp0_command == old(self).gp0_command,
            final(self).gp0_command_method == old(self).gp0_command_method,
            final(self).gp0_words_remaining == old(self).gp0_words_remaining,
            final(self).wf() == old(self).wf(),
            match old(self).gp0_mode {
                Gp0Mode::ImageStore { current_word, .. } => final(self).gp0_mode matches Gp0Mode::ImageStore {
                    current_word: cw,
                    data: d,
                } && cw == current_word && d@ == data@,
                _ => final(self).gp0_mode == old(self).gp0_mode,
            },
    {
        let mut mode = Gp0Mode::Command;
        std::mem::swap(&mut mode, &mut self.gp0_mode);
        match mode {
            Gp0Mode::ImageStore { current_word, data: _ } => {
                self.gp0_mode = Gp0Mode::ImageStore { current_word, data };
            },
            other => {
                self.gp0_mode = other;
            },
        }
        self.readback_pending = false;
    }

    /// GPUSTAT.
    pub fn status(&self) -> (r: u32)
        ensures
            r == spec_status(self.regs),
    {
        let g = &self.regs;
        let field_bits: u32 = match g.field {
            Field::Top => 1,
            Field::Bottom => 2,
        };
        let vmode_bits: u32 = match g.vmode {
            VMode::Ntsc => 0,
            VMode::Pal => 1,
        };
        let dma_request: u32 = if g.dma_direction == DmaDirection::Off { 0 } else { 1 };
        let odd: u32 = if !g.even && !g.in_vblank { 1 } else { 0 };
        (g.page_base_x as u32) | ((g.page_base_y as u32) << 4) | ((g.semi_transparency as u32) << 5)
            | (g.texture_depth.bits() << 7) | (bit_of(g.dithering) << 9) | (bit_of(
            g.draw_to_display,
        ) << 10) | (bit_of(g.force_set_mask_bit) << 11) | (bit_of(g.preserve_masked_pixels)
            << 12) | (field_bits << 13) | (bit_of(g.texture_disable) << 15) | g.hres.into_status()
            | (g.vres.bits() << 19) | (vmode_bits << 20) | (g.display_depth.bits() << 21) | (
        bit_of(g.interlaced) << 22) | (bit_of(g.display_disabled) << 23) | (bit_of(g.interrupt)
            << 24) | (dma_request << 25) | (1u32 << 26) | (1u32 << 27) | (1u32 << 28) | (odd << 31)
    }

    /// Texture window setting as reported by GP1(10h).
    pub fn texture_window_setting(&self) -> (r: u32)
        ensures
            r == spec_texture_window_setting(self.regs),
    {
        let mask_x = self.regs.texture_window_x_mask as u32;
        let mask_y = self.regs.texture_window_y_mask as u32;
        let offs_x = self.regs.texture_window_x_offset as u32;
        let offs_y = self.regs.texture_window_y_offset as u32;
        (mask_x & 31) | ((mask_y & 31) << 5) | ((offs_x & 31) << 10) | ((offs_y & 31) << 15)
    }

    /// Drawing offset as reported by GP1(10h).
    pub fn draw_offset(&self) -> (r: u32)
        ensures
            r == spec_draw_offset(self.regs),
    {
        let x = self.regs.drawing_x_offset as u32;
        let y = self.regs.drawing_y_offset as u32;
        ((y & 0x3FF) << 11) | (x & 0x7FF)
    }

    /// Top-left drawing-area corner as reported by GP1(10h).
    pub fn draw_area_top_left(&self) -> (r: u32)
        ensures
            r == spec_draw_area_corner(self.regs.drawing_area_left, self.regs.drawing_area_top),
    {
        let x = self.regs.drawing_area_left as u32;
        let y = self.regs.drawing_area_top as u32;
        ((y & 0x1FF) << 10) | (x & 0x3FF)
    }

    /// Bottom-right drawing-area corner as reported by GP1(10h).
    pub fn draw_area_bottom_right(&self) -> (r: u32)
        ensures
            r == spec_draw_area_corner(self.regs.drawing_area_right, self.regs.drawing_area_bottom),
    {
        let x = self.regs.drawing_area_right as u32;
        let y = self.regs.drawing_area_bottom as u32;
        ((y & 0x1FF) << 10) | (x & 0x3FF)
    }

    /// GP1(01h): drops the GP0 command being collected.
    pub fn gp1_reset_command_buffer(&mut self, _val: u32)
        ensures
            final(self).gp0_command.len == 0,
            final(self).gp0_command@ == Seq::<u32>::empty(),
            final(self).gp0_words_remaining == 0,
            final(self).gp0_mode is Command,
            final(self).gp0_command_method == old(self).gp0_command_method,
            final(self).regs == old(self).regs,
            final(self).outbox@ == old(self).outbox@,
            final(self).readback_pending == old(self).readback_pending,
            final(self).readback_words == old(self).readback_words,
    {
        self.gp0_command.clear();
        self.gp0_words_remaining = 0;
        self.gp0_mode = Gp0Mode::Command;
    }

    /// GP1(00h): resets the registers and the GP0 command buffer.
    pub fn gp1_reset(&mut self, _val: u32)
        ensures
            final(self).regs == spec_reset_regs(old(self).regs),
            final(self).gp0_command@ == Seq::<u32>::empty(),
            final(self).gp0_command.len == 0,
            final(self).gp0_words_remaining == 0,
            final(self).gp0_mode is Command,
            final(self).gp0_command_method == old(self).gp0_command_method,
            final(self).outbox@ == old(self).outbox@,
            final(self).readback_pending == old(self).readback_pending,
            final(self).readback_words == old(self).readback_words,
    {
        let g = &mut self.regs;
        g.page_base_x = 0;
        g.page_base_y = 0;
        g.semi_transparency = 0;
        g.texture_depth = TextureDepth::T4Bit;
        g.texture_window_x_mask = 0;
        g.texture_window_y_mask = 0;
        g.texture_window_x_offset = 0;
        g.texture_window_y_offset = 0;
        g.dithering = false;
        g.draw_to_display = false;
        g.texture_disable = false;
        g.rectange_texture_x_flip = false;
        g.rectange_texture_y_flip = false;
        g.drawing_area_left = 0;
        g.drawing_area_top = 0;
        g.drawing_area_right = 0;
        g.drawing_area_bottom = 0;
        g.drawing_x_offset = 0;
        g.drawing_y_offset = 0;
        g.force_set_mask_bit = false;
        g.preserve_masked_pixels = false;
        g.dma_direction = DmaDirection::Off;
        g.display_disabled = true;
        g.display_vram_x_start = 0;
        g.display_vram_y_start = 0;
        g.hres = HorizontalRes::from_fields(0, 0);
        g.vres = VerticalRes::Y240Lines;
        g.vmode = VMode::Ntsc;
        g.interlaced = true;
        g.display_horiz_start = 0x200;
        g.display_horiz_end = 0xc00;
        g.display_line_start = 0x10;
        g.display_line_end = 0x100;
        g.display_depth = DisplayDepth::D15Bits;
        g.interrupt = false;
        self.gp1_reset_command_buffer(0);
    }

    /// GP1(02h): acknowledges the GPU interrupt.
    pub fn gp1_acknowledge_irq(&mut self, _val: u32)
        ensures
            final(self).regs == (GpuRegs { interrupt: false, ..old(self).regs }),
            final(self).gp0_command == old(self).gp0_command,
            final(self).gp0_words_remaining == old(self).gp0_words_remaining,
            final(self).gp0_mode == old(self).gp0_mode,
            final(self).outbox == old(self).outbox,
            final(self).gp0_command_method == old(self).gp0_command_method,
            final(self).readback_pending == old(self).readback_pending,
            final(self).readback_words == old(self).readback_words,
    {
        self.regs.interrupt = false;
    }

    /// GP1(03h): display enable (bit 0 set disables the display).
    pub fn gp1_display_enable(&mut self, val: u32)
        ensures
            final(self).regs == (GpuRegs { display_disabled: val & 1 != 0, ..old(self).regs }),
            final(self).gp0_command == old(self).gp0_command,
            final(self).gp0_words_remaining == old(self).gp0_words_remaining,
            final(self).gp0_mode == old(self).gp0_mode,
            final(self).outbox == old(self).outbox,
            final(self).gp0_command_method == old(self).gp0_command_method,
            final(self).readback_pending == old(self).readback_pending,
            final(self).readback_words == old(self).readback_words,
    {
        self.regs.display_disabled = val & 1 != 0;
    }

    /// GP1(04h): DMA direction.
    pub fn gp1_dma_direction(&mut self, val: u32)
        ensures
            final(self).regs == spec_gp1_dma_direction(old(self).regs, val),
            final(self).gp0_command == old(self).gp0_command,
            final(self).gp0_words_remaining == old(self).gp0_words_remaining,
            final(self).gp0_mode == old(self).gp0_mode,
            final(self).outbox == old(self).outbox,
            final(self).gp0_command_method == old(self).gp0_command_method,
            final(self).readback_pending == old(self).readback_pending,
            final(self).readback_words == old(self).readback_words,
    {
        self.regs.dma_direction = match val & 3 {
            0 => DmaDirection::Off,
            1 => DmaDirection::Fifo,
            2 => DmaDirection::CpuToGp0,
            _ => DmaDirection::VRamToCpu,
        };
    }

    /// GP1(05h): start of the display area in VRAM.
    pub fn gp1_display_vram_start(&mut self, val: u32)
        ensures
            final(self).regs == spec_gp1_display_vram_start(old(self).regs, val),
            final(self).gp0_command == old(self).gp0_command,
            final(self).gp0_words_remaining == old(self).gp0_words_remaining,
            final(self).gp0_mode == old(self).gp0_mode,
            final(self).outbox == old(self).outbox,
            final(self).gp0_command_method == old(self).gp0_command_method,
            final(self).readback_pending == old(self).readback_pending,
            final(self).readback_words == old(self).readback_words,
    {
        proof {
            crate::bitfacts::lemma_and_le_u32(val, 0x3fe);
            crate::bitfacts::lemma_and_le_u32(val >> 10, 0x1ff);
        }
        self.regs.display_vram_x_start = (val & 0x3fe) as u16;
        self.regs.display_vram_y_start = ((val >> 10) & 0x1ff) as u16;
    }

    /// GP1(06h): horizontal display range.
    pub fn gp1_display_horizontal_range(&mut self, val: u32)
        ensures
            final(self).regs == spec_gp1_display_horizontal_range(old(self).regs, val),
            final(self).gp0_command == old(self).gp0_command,
            final(self).gp0_words_remaining == old(self).gp0_words_remaining,
            final(self).gp0_mode == old(self).gp0_mode,
            final(self).outbox == old(self).outbox,
            final(self).gp0_command_method == old(self).gp0_command_method,
            final(self).readback_pending == old(self).readback_pending,
            final(self).readback_words == old(self).readback_words,
    {
        proof {
            crate::bitfacts::lemma_and_le_u32(val, 0xfff);
            crate::bitfacts::lemma_and_le_u32(val >> 12, 0xfff);
        }
        self.regs.display_horiz_start = (val & 0xfff) as u16;
        self.regs.display_horiz_end = ((val >> 12) & 0xfff) as u16;
    }

    /// GP1(07h): vertical display range.
    pub fn gp1_display_vertical_range(&mut self, val: u32)
        ensures
            final(self).regs == spec_gp1_display_vertical_range(old(self).regs, val),
            final(self).gp0_command == old(self).gp0_command,
            final(self).gp0_words_remaining == old(self).gp0_words_remaining,
            final(self).gp0_mode == old(self).gp0_mode,
            final(self).outbox == old(self).outbox,
            final(self).gp0_command_method == old(self).gp0_command_method,
            final(self).readback_pending == old(self).readback_pending,
            final(self).readback_words == old(self).readback_words,
    {
        proof {
            crate::bitfacts::lemma_and_le_u32(val, 0x3ff);
            crate::bitfacts::lemma_and_le_u32(val >> 10, 0x3ff);
        }
        self.regs.display_line_start = (val & 0x3ff) as u16;
        self.regs.display_line_end = ((val >> 10) & 0x3ff) as u16;
    }

    /// GP1(08h): display mode.
    pub fn gp1_display_mode(&mut self, val: u32)
        requires
            val & 0x80 == 0,
        ensures
            final(self).regs == spec_gp1_display_mode(old(self).regs, val),
            final(self).gp0_command == old(self).gp0_command,
            final(self).gp0_words_remaining == old(self).gp0_words_remaining,
            final(self).gp0_mode == old(self).gp0_mode,
            final(self).outbox == old(self).outbox,
            final(self).gp0_command_method == old(self).gp0_command_method,
            final(self).readback_pending == old(self).readback_pending,
            final(self).readback_words == old(self).readback_words,
    {
        proof {
            crate::bitfacts::lemma_and_le_u32(val, 3);
            crate::bitfacts::lemma_and_le_u32(val >> 6, 1);
        }
        let hr1 = (val & 3) as u8;
        let hr2 = ((val >> 6) & 1) as u8;
        self.regs.hres = HorizontalRes::from_fields(hr1, hr2);
        self.regs.vres = if val & 0x4 != 0 {
            VerticalRes::Y480Lines
        } else {
            VerticalRes::Y240Lines
        };
        self.regs.vmode = if val & 0x8 != 0 {
            VMode::Pal
        } else {
            VMode::Ntsc
        };
        self.regs.display_depth = if val & 0x10 != 0 {
            DisplayDepth::D24Bits
        } else {
            DisplayDepth::D15Bits
        };
        self.regs.interlaced = val & 0x20 != 0;
    }

    /// GP1(10h): latches GPU information into GPUREAD.
    pub fn gp1_get_gpu_info(&mut self, val: u32)
        ensures
            final(self).regs == (GpuRegs { read: spec_gpu_info(old(self).regs, val), ..old(self).regs }),
            final(self).gp0_command == old(self).gp0_command,
            final(self).gp0_words_remaining == old(self).gp0_words_remaining,
            final(self).gp0_mode == old(self).gp0_mode,
            final(self).outbox == old(self).outbox,
            final(self).gp0_command_method == old(self).gp0_command_method,
            final(self).readback_pending == old(self).readback_pending,
            final(self).readback_words == old(self).readback_words,
    {
        let v = val % 8;
        let r = if v == 2 {
            self.texture_window_setting()
        } else if v == 3 {
            self.draw_area_top_left()
        } else if v == 4 {
            self.draw_area_bottom_right()
        } else if v == 5 {
            self.draw_offset()
        } else {
            self.regs.read
        };
        self.regs.read = r;
    }

    /// A GP1 command that only sets registers (opcodes 02h-08h and 10h).
    fn gp1_register_command(&mut self, val: u32)
        requires
            2 <= (val >> 24) & 0xff <= 8 || (val >> 24) & 0xff == 0x10,
            (val >> 24) & 0xff == 8 ==> val & 0x80 == 0,
        ensures
            final(self).regs == spec_gp1_regs(old(self).regs, val),
            final(self).gp0_command == old(self).gp0_command,
            final(self).gp0_words_remaining == old(self).gp0_words_remaining,
            final(self).gp0_mode == old(self).gp0_mode,
            final(self).outbox == old(self).outbox,
            final(self).gp0_command_method == old(self).gp0_command_method,
            final(self).readback_pending == old(self).readback_pending,
            final(self).readback_words == old(self).readback_words,
    {
        let opcode = (val >> 24) & 0xff;
        match opcode {
            0x02 => self.gp1_acknowledge_irq(val),
            0x03 => self.gp1_display_enable(val),
            0x04 => self.gp1_dma_direction(val),
            0x05 => self.gp1_display_vram_start(val),
            0x06 => self.gp1_display_horizontal_range(val),
            0x07 => self.gp1_display_vertical_range(val),
            0x08 => self.gp1_display_mode(val),
            _ => self.gp1_get_gpu_info(val),
        }
    }

    /// Takes a word written to GP1.
    pub fn gp1(&mut self, val: u32)
        requires
            spec_gp1_supported(val),
            old(self).wf(),
        ensures
            final(self).wf(),
            final(self).regs == spec_gp1_regs(old(self).regs, val),
            final(self).outbox@ == old(self).outbox@,
            final(self).readback_pending == old(self).readback_pending,
            ((val >> 24) & 0xff == 0 || (val >> 24) & 0xff == 1) ==> {
                &&& final(self).gp0_command@ == Seq::<u32>::empty()
                &&& final(self).gp0_words_remaining == 0
                &&& final(self).gp0_mode is Command
            },
            !((val >> 24) & 0xff == 0 || (val >> 24) & 0xff == 1) ==> {
                &&& final(self).gp0_command == old(self).gp0_command
                &&& final(self).gp0_words_remaining == old(self).gp0_words_remaining
                &&& final(self).gp0_mode == old(self).gp0_mode
            },
    {
        let opcode = (val >> 24) & 0xff;
        if opcode == 0 {
            self.gp1_reset(val);
        } else if opcode == 1 {
            self.gp1_reset_command_buffer(val);
        } else {
            self.gp1_register_command(val);
        }
    }

    /// Registers the GPU answers at: 0 (GPUREAD) and 4 (GPUSTAT), for word
    /// accesses.
    pub open spec fn load_ok<T: Addressable>(&self, offset: u32) -> bool {
        &&& T::spec_width() == AccessWidth::Word
        &&& offset == 0 || offset == 4
        &&& offset == 0 ==> self.read_ok()
    }

    /// Reads GPUREAD (offset 0) or GPUSTAT (offset 4).
    pub fn load<T: Addressable>(&mut self, offset: u32) -> (r: T)
        requires
            old(self).load_ok::<T>(offset),
            old(self).wf(),
        ensures
            final(self).wf(),
            offset == 4 ==> r.spec_as_u32() == spec_status(old(self).regs) && *final(self) == *old(
                self,
            ),
            offset == 0 ==> exists|v: u32|
                r.spec_as_u32() == v && #[trigger] Self::read_post(*old(self), *final(self), v),
    {
        let ghost o = *self;
        let r = if offset == 4 {
            self.status()
        } else {
            self.read()
        };
        assert(r & 0xffff_ffff == r) by (bit_vector);
        if offset == 0 {
            assert(Self::read_post(o, *self, r));
        }
        T::from_u32(r)
    }

    /// `n` and `v` are the GPU and the word after a GPUREAD read from `o`.
    pub open spec fn read_post(o: Gpu, n: Gpu, v: u32) -> bool {
        &&& n.regs == o.regs
        &&& n.outbox@ == o.outbox@
        &&& match o.gp0_mode {
            Gp0Mode::ImageStore { current_word, data } => {
                &&& v == data@[current_word as int]
                &&& n.gp0_words_remaining == o.gp0_words_remaining - 1
            },
            _ => v == o.regs.read && n.gp0_mode == o.gp0_mode && n.gp0_words_remaining
                == o.gp0_words_remaining,
        }
    }

    /// Whether a load at `offset` is handled now.
    pub fn can_load<T: Addressable>(&self, offset: u32) -> (r: bool)
        ensures
            r == self.load_ok::<T>(offset),
    {
        if T::width() != AccessWidth::Word || !(offset == 0 || offset == 4) {
            return false;
        }
        if offset == 4 {
            return true;
        }
        match &self.gp0_mode {
            Gp0Mode::ImageStore { current_word, data } => !self.readback_pending && self.gp0_words_remaining > 0
                && *current_word < data.len(),
            _ => true,
        }
    }

    /// Whether a store of `value` at `offset` is handled now.
    pub fn can_store<T: Addressable>(&self, offset: u32, value: T) -> (r: bool)
        ensures
            r == self.store_ok::<T>(offset, value),
    {
        if T::width() != AccessWidth::Word || !(offset == 0 || offset == 4) {
            return false;
        }
        let v = value.as_u32();
        if offset == 0 {
            if self.gp0_words_remaining == 0 {
                gp0_decode(v >> 24).is_some()
            } else {
                true
            }
        } else {
            let op = (v >> 24) & 0xff;
            (op <= 8 || op == 0x10) && (op != 8 || v & 0x80 == 0)
        }
    }

    /// Whether a store of `value` at `offset` is handled.
    pub open spec fn store_ok<T: Addressable>(&self, offset: u32, value: T) -> bool {
        &&& T::spec_width() == AccessWidth::Word
        &&& offset == 0 || offset == 4
        &&& offset == 0 ==> (self.gp0_words_remaining == 0 ==> spec_gp0_decode(
            value.spec_as_u32() >> 24,
        ) is Some)
        &&& offset == 4 ==> spec_gp1_supported(value.spec_as_u32())
    }

    /// Writes GP0 (offset 0) or GP1 (offset 4).
    pub fn store<T: Addressable>(&mut self, offset: u32, value: T)
        requires
            old(self).store_ok::<T>(offset, value),
            old(self).wf(),
        ensures
            final(self).wf(),
            offset == 0 ==> spec_gp0_post(*old(self), *final(self), value.spec_as_u32()),
            offset == 4 ==> final(self).regs == spec_gp1_regs(old(self).regs, value.spec_as_u32()),
    {
        let val = value.as_u32();
        if offset == 0 {
            self.gp0(val)
        } else {
            self.gp1(val)
        }
    }

    /// Requests the displayed frame (or all of VRAM with `display_vram`).
    pub fn render_fb(&mut self, display_vram: bool)
        ensures
            final(self).outbox@ == old(self).outbox@.push(
                RendererMsg::RenderFB { full_ram: display_vram, ctx: spec_ctx(old(self).regs) },
            ),
            *final(self) == (Gpu { outbox: final(self).outbox, ..*old(self) }),
    {
        let ctx = self.rendering_ctx();
        self.outbox.push(RendererMsg::RenderFB { full_ram: display_vram, ctx });
    }

    /// Start of vertical blank: raises the GPU interrupt and flips the field.
    pub fn enter_vsync(&mut self)
        ensures
            final(self).regs == (GpuRegs {
                interrupt: true,
                in_vblank: true,
                even: !old(self).regs.even,
                ..old(self).regs
            }),
            *final(self) == (Gpu { regs: final(self).regs, ..*old(self) }),
    {
        self.regs.interrupt = true;
        self.regs.in_vblank = true;
        self.regs.even = !self.regs.even;
    }

    /// End of vertical blank.
    pub fn exit_vsync(&mut self)
        ensures
            final(self).regs == (GpuRegs { in_vblank: false, ..old(self).regs }),
            *final(self) == (Gpu { regs: final(self).regs, ..*old(self) }),
    {
        self.regs.in_vblank = false;
    }

    /// Start of horizontal blank: flips the line parity when not interlaced.
    pub fn enter_hsync(&mut self)
        ensures
            final(self).regs == (GpuRegs {
                in_hblank: true,
                even: if old(self).regs.interlaced {
                    old(self).regs.even
                } else {
                    !old(self).regs.even
                },
                ..old(self).regs
            }),
            *final(self) == (Gpu { regs: final(self).regs, ..*old(self) }),
    {
        self.regs.in_hblank = true;
        if !self.regs.interlaced {
            self.regs.even = !self.regs.even;
        }
    }

    /// End of horizontal blank.
    pub fn exit_hsync(&mut self)
        ensures
            final(self).regs == (GpuRegs { in_hblank: false, ..old(self).regs }),
            *final(self) == (Gpu { regs: final(self).regs, ..*old(self) }),
    {
        self.regs.in_hblank = false;
    }

    /// Dot clock divider of the horizontal resolution.
    pub fn get_clock_divider(&self) -> (r: u16)
        requires
            self.regs.hres.0 < 8,
        ensures
            r == (if self.regs.hres.0 == 0 {
                10u16
            } else if self.regs.hres.0 == 1 {
                8
            } else if self.regs.hres.0 == 2 {
                7
            } else if self.regs.hres.0 == 3 {
                5
            } else {
                4
            }),
    {
        match self.regs.hres.0 {
            0 => 10,
            1 => 8,
            2 => 7,
            3 => 5,
            _ => 4,
        }
    }
}

} // verus!
