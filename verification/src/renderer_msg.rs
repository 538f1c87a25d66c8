use vstd::prelude::*;
use crate::colour::{Colour, Vertex};
use crate::gpu_types::RenderingContext;

verus! {

/// A drawing or transfer request that the GPU hands to the rasteriser.
pub enum RendererMsg {
    DrawLine {
        v0: Vertex,
        v1: Vertex,
        c0: Colour,
        semi_transparent: bool,
        ctx: RenderingContext,
    },
    DrawLineShaded {
        v0: Vertex,
        v1: Vertex,
        c0: Colour,
        c1: Colour,
        semi_transparent: bool,
        ctx: RenderingContext,
    },
    DrawRectangle {
        v: Vertex,
        side: Vertex,
        c: Colour,
        semi_transparent: bool,
        ctx: RenderingContext,
    },
    DrawRectangleTextured {
        v: Vertex,
        side: Vertex,
        c: Colour,
        clut: u16,
        _u: u16,
        _v: u16,
        semi_transparent: bool,
        blend: bool,
        ctx: RenderingContext,
    },
    DrawTriangleMono {
        c: Colour,
        v0: Vertex,
        v1: Vertex,
        v2: Vertex,
        semi_transparent: bool,
        ctx: RenderingContext,
    },
    DrawTriangleShaded {
        vs: [Vertex; 3],
        cs: [Colour; 3],
        semi_transparent: bool,
        ctx: RenderingContext,
    },
    DrawTriangleTextured {
        color: Colour,
        clut: u16,
        page: u16,
        vs: [Vertex; 3],
        uvs: [[u16; 2]; 3],
        semi_transparent: bool,
        blend: bool,
        ctx: RenderingContext,
    },
    DrawTriangleTexturedShaded {
        cs: [Colour; 3],
        clut: u16,
        page: u16,
        vs: [Vertex; 3],
        uvs: [[u16; 2]; 3],
        semi_transparent: bool,
        blend: bool,
        ctx: RenderingContext,
    },
    FillRect { v: Vertex, side: Vertex, c: Colour, ctx: RenderingContext },
    Vram2VramBlit { src: Vertex, dst: Vertex, size: Vertex },
    /// Produce the displayed frame (or, with `full_ram`, all of VRAM).
    RenderFB { full_ram: bool, ctx: RenderingContext },
    CpuToVramCopy { top_left: (u16, u16), size: (u16, u16), data: Vec<u32> },
    VramToCpuCopy { top_left: (u16, u16), size: (u16, u16) },
}

/// What the rasteriser answers to requests that return data.
pub enum RendererResponse {
    FBUpdated { width: usize, height: usize },
    VramToCpuData { data: Vec<u32> },
}

} // verus!
