use vstd::prelude::*;
use crate::colour::{
    spec_blend_channel, spec_colour_from_pixel, spec_colour_pixel, spec_dither_offset,
    spec_modulate, spec_saturating_add_signed, spec_5bit_to_8bit, convert_5bit_to_8bit, Colour,
    Vertex,
};
use crate::gpu_types::{DisplayDepth, RenderingContext, TextureDepth};
use crate::renderer_msg::{RendererMsg, RendererResponse};

verus! {

/// Bytes of VRAM: 1024 x 512 halfword pixels.
pub const VRAM_BYTES: usize = 1048576;

/// Values of the drawing functions' `SEMI_TRANS` and `BLEND` parameters.
pub const OPAQUE: bool = false;
pub const SEMI_TRANS: bool = true;
pub const BLEND: bool = true;
pub const RAW: bool = false;

/// The pixel value `lo | hi << 8`.
pub open spec fn spec_halfword(lo: u8, hi: u8) -> u16 {
    (((hi as u16) << 8u16) | (lo as u16)) as u16
}

/// Colour of the pixel stored at byte `addr` of `vram`.
pub open spec fn spec_vram_colour(vram: Seq<u8>, addr: int) -> Colour {
    spec_colour_from_pixel(spec_halfword(vram[addr], vram[addr + 1]))
}

/// `c` over the background `bg` when `semi`, in semi-transparency mode `mode`.
pub open spec fn spec_shade(c: Colour, bg: Colour, semi: bool, mode: u8) -> Colour {
    if semi {
        Colour {
            r: spec_blend_channel(c.r, bg.r, mode),
            g: spec_blend_channel(c.g, bg.g, mode),
            b: spec_blend_channel(c.b, bg.b, mode),
            m: c.m,
        }
    } else {
        c
    }
}

/// Whether writing the pixel at `addr` is masked off.
pub open spec fn spec_masked(vram: Seq<u8>, addr: int, ctx: RenderingContext) -> bool {
    ctx.preserve_masked_pixels && (vram[addr + 1] & 0x80) != 0
}

/// Low byte written for colour `c`.
pub open spec fn spec_lo(c: Colour) -> u8 {
    (spec_colour_pixel(c) & 0xff) as u8
}

/// High byte written for colour `c`, with the forced mask bit.
pub open spec fn spec_hi(c: Colour, ctx: RenderingContext) -> u8 {
    ((spec_colour_pixel(c) >> 8) as u8 | (if ctx.force_set_mask_bit { 0x80u8 } else { 0u8 })) as u8
}

/// VRAM after writing colour `c` to the pixel at byte `addr`.
pub open spec fn spec_write(vram: Seq<u8>, addr: int, c: Colour, ctx: RenderingContext) -> Seq<u8> {
    if spec_masked(vram, addr, ctx) {
        vram
    } else {
        vram.update(addr, spec_lo(c)).update(addr + 1, spec_hi(c, ctx))
    }
}

/// A clipped rectangle `(x0, y0, x1, y1)` inside the drawing area, or
/// `None` when it is too large or outside the drawing area.
pub open spec fn spec_clip_rect(x0: i32, y0: i32, x1: i32, y1: i32, ctx: RenderingContext) -> Option<
    (i32, i32, i32, i32),
> {
    let l = ctx.drawing_area_left as i32;
    let t = ctx.drawing_area_top as i32;
    let b = ctx.drawing_area_bottom as i32;
    let r = ctx.drawing_area_right as i32;
    if x1 - x0 > 1023 || y1 - y0 > 511 {
        None
    } else if x1 < l || x0 > r || y1 < t || y0 > b {
        None
    } else {
        Some(
            (
                if x0 > l { x0 } else { l },
                if y0 > t { y0 } else { t },
                if x1 < r { x1 } else { r },
                if y1 < b { y1 } else { b },
            ),
        )
    }
}

/// An RGBA output pixel.
#[derive(Debug, Copy, Clone, PartialEq, Eq, Structural)]
pub struct Color {
    pub r: u8,
    pub g: u8,
    pub b: u8,
    pub a: u8,
}

/// The software rasteriser and its VRAM.
pub struct Renderer {
    pub vram: Vec<u8>,
}

/// Byte address of pixel `(x, y)`.
pub open spec fn spec_addr(x: int, y: int) -> int {
    2 * (y * 1024 + x)
}

/// Whether pixel `(x, y)` is inside VRAM.
pub open spec fn in_vram(x: int, y: int) -> bool {
    0 <= x < 1024 && 0 <= y < 512
}

impl Renderer {
    pub open spec fn wf(&self) -> bool {
        self.vram@.len() == VRAM_BYTES
    }

    /// A renderer with VRAM cleared to zero.
    pub fn new() -> (r: Renderer)
        ensures
            r.wf(),
            forall|i: int| 0 <= i < VRAM_BYTES ==> r.vram@[i] == 0,
    {
        let mut vram: Vec<u8> = Vec::new();
        let mut i: usize = 0;
        while i < VRAM_BYTES
            invariant
                i <= VRAM_BYTES,
                vram@.len() == i,
                forall|j: int| 0 <= j < i ==> vram@[j] == 0,
            decreases VRAM_BYTES - i,
        {
            vram.push(0);
            i = i + 1;
        }
        Renderer { vram }
    }

    /// Clips the rectangle `(x0, y0)`-`(x1, y1)` to the drawing area.
    pub fn clip_rect(&self, x0: i32, y0: i32, x1: i32, y1: i32, ctx: &RenderingContext) -> (r:
        Option<(i32, i32, i32, i32)>)
        requires
            i32::MIN <= x1 - x0 <= i32::MAX,
            i32::MIN <= y1 - y0 <= i32::MAX,
        ensures
            r == spec_clip_rect(x0, y0, x1, y1, *ctx),
    {
        if x1 - x0 > 1023 || y1 - y0 > 511 {
            return None;
        }
        let l = ctx.drawing_area_left as i32;
        let t = ctx.drawing_area_top as i32;
        let b = ctx.drawing_area_bottom as i32;
        let r = ctx.drawing_area_right as i32;

        if x1 < l || x0 > r || y1 < t || y0 > b {
            return None;
        }
        Some(
            (
                if x0 > l { x0 } else { l },
                if y0 > t { y0 } else { t },
                if x1 < r { x1 } else { r },
                if y1 < b { y1 } else { b },
            ),
        )
    }

    /// Writes colour `color` to the pixel at byte `address`, unless the pixel
    /// is masked; sets the mask bit when the context forces it.
    pub fn vram_write_color(&mut self, address: usize, color: Colour, ctx: &RenderingContext)
        requires
            address + 1 < old(self).vram@.len(),
        ensures
            final(self).vram@ == spec_write(old(self).vram@, address as int, color, *ctx),
    {
        let _len = self.vram.len();
        if ctx.preserve_masked_pixels && (self.vram[address + 1] & 0x80) != 0 {
            return;
        }
        let bytes = color.to_le_bytes();
        let lsb = bytes[0];
        let msb = bytes[1] | (if ctx.force_set_mask_bit { 0x80u8 } else { 0u8 });
        self.vram.set(address, lsb);
        self.vram.set(address + 1, msb);
    }

    /// Colour of the pixel at byte `addr`.
    pub fn vram_colour(&self, addr: usize) -> (r: Colour)
        requires
            addr + 1 < self.vram@.len(),
        ensures
            r == spec_vram_colour(self.vram@, addr as int),
    {
        let _len = self.vram.len();
        Colour::from_bytes(self.vram[addr + 1], self.vram[addr])
    }

    /// Plots colour `c` at pixel `(x, y)`, blended over the background when
    /// `semi`.
    pub fn plot(&mut self, x: i32, y: i32, c: Colour, semi: bool, mode: u8, ctx: &RenderingContext)
        requires
            old(self).wf(),
            in_vram(x as int, y as int),
            mode < 4,
        ensures
            final(self).wf(),
            final(self).vram@ == spec_set_px(
                old(self).vram@,
                x as int,
                y as int,
                spec_plot_bytes(
                    spec_px(old(self).vram@, x as int, y as int),
                    c,
                    semi,
                    mode,
                    *ctx,
                ),
            ),
    {
        let vram_addr = (2 * (y * 1024 + x)) as usize;
        let mut pixel = c;
        if semi {
            let bg = self.vram_colour(vram_addr);
            pixel.blend_with_background(bg, mode);
        }
        self.vram_write_color(vram_addr, pixel, ctx);
        proof {
            let v = old(self).vram@;
            let a = vram_addr as int;
            if spec_masked(v, a, *ctx) {
                assert(v =~= v.update(a, v[a]).update(a + 1, v[a + 1]));
            }
        }
    }
}

/// Bytes a filled pixel gets: the colour's pixel, bit 4 of the high byte
/// cleared.
pub open spec fn spec_fill_bytes(c: Colour) -> (u8, u8) {
    ((spec_colour_pixel(c) & 0xff) as u8, (((spec_colour_pixel(c) >> 8) as u8) & 0xef) as u8)
}

/// The pixels that a fill covers: `v` to `v + side`, within VRAM.
pub open spec fn spec_fill_covers(v: Vertex, side: Vertex, x: int, y: int) -> bool {
    v.x <= x < v.x + side.x && v.y <= y < v.y + side.y
}

/// Corners of a rectangle at `v` of size `side`, moved by the drawing offset.
pub open spec fn spec_rect_corners(v: Vertex, side: Vertex, ctx: RenderingContext) -> (int, int, int, int) {
    (
        v.x + ctx.drawing_x_offset,
        v.y + ctx.drawing_y_offset,
        v.x + ctx.drawing_x_offset + side.x - 1,
        v.y + ctx.drawing_y_offset + side.y - 1,
    )
}

/// The corners fit in an `i32`.
pub open spec fn spec_rect_fits(v: Vertex, side: Vertex, ctx: RenderingContext) -> bool {
    let c = spec_rect_corners(v, side, ctx);
    &&& i32::MIN <= c.0 <= i32::MAX
    &&& i32::MIN <= c.1 <= i32::MAX
    &&& i32::MIN <= c.2 <= i32::MAX
    &&& i32::MIN <= c.3 <= i32::MAX
    &&& i32::MIN <= c.2 + 1 <= i32::MAX
    &&& i32::MIN <= c.3 + 1 <= i32::MAX
    &&& i32::MIN <= c.2 - c.0 <= i32::MAX
    &&& i32::MIN <= c.3 - c.1 <= i32::MAX
}

/// The clipped rectangle of a rectangle draw.
pub open spec fn spec_rect_clip(v: Vertex, side: Vertex, ctx: RenderingContext) -> Option<(i32, i32, i32, i32)> {
    let c = spec_rect_corners(v, side, ctx);
    spec_clip_rect(c.0 as i32, c.1 as i32, c.2 as i32, c.3 as i32, ctx)
}

/// A clipped rectangle lies inside VRAM.
pub open spec fn spec_clip_in_vram(r: Option<(i32, i32, i32, i32)>) -> bool {
    r matches Some(q) ==> q.2 < 1024 && q.3 < 512
}

/// Whether pixel `(x, y)` is inside the clipped rectangle `r` (inclusive).
pub open spec fn spec_in_clip(r: Option<(i32, i32, i32, i32)>, x: int, y: int) -> bool {
    r matches Some(q) && q.0 <= x <= q.2 && q.1 <= y <= q.3
}

impl Renderer {
    /// Fills the rectangle at `v` of size `side` (clipped to VRAM) with
    /// `color`, ignoring the mask settings.
    pub fn fill_rect(&mut self, v: Vertex, side: Vertex, color: Colour)
        requires
            old(self).wf(),
            i32::MIN <= v.x + side.x <= i32::MAX,
            i32::MIN <= v.y + side.y <= i32::MAX,
        ensures
            final(self).wf(),
            spec_painted(
                old(self).vram@,
                final(self).vram@,
                |x: int, y: int| spec_fill_covers(v, side, x, y),
                |p: (u8, u8)| spec_fill_bytes(color),
            ),
    {
        let min_x: i32 = if v.x > 0 { v.x } else { 0 };
        let min_y: i32 = if v.y > 0 { v.y } else { 0 };
        let max_x: i32 = if v.x + side.x < 0x400 { v.x + side.x } else { 0x400 };
        let max_y: i32 = if v.y + side.y < 0x200 { v.y + side.y } else { 0x200 };
        let bytes = color.to_le_bytes();
        let lsb = bytes[0];
        let msb = bytes[1] & 0xEF;
        let ghost old_v = self.vram@;
        let ghost f = |p: (u8, u8)| spec_fill_bytes(color);
        if min_x >= max_x || min_y >= max_y {
            proof {
                lemma_painted_ext(old_v, old_v, |x: int, y: int| false, |x: int, y: int| spec_fill_covers(v, side, x, y), f);
            }
            return;
        }
        proof {
            lemma_painted_ext(old_v, old_v, |x: int, y: int| false, |x: int, y: int| min_x <= x < min_x && min_y <= y < max_y, f);
        }
        let mut x = min_x;
        while x < max_x
            invariant
                self.wf(),
                old_v.len() == VRAM_BYTES,
                0 <= min_x <= x <= max_x,
                0 <= min_y < max_y,
                max_x <= 1024,
                max_y <= 512,
                f == (|p: (u8, u8)| spec_fill_bytes(color)),
                lsb == spec_fill_bytes(color).0,
                msb == spec_fill_bytes(color).1,
                spec_painted(old_v, self.vram@, |px: int, py: int| min_x <= px < x && min_y <= py < max_y, f),
            decreases max_x - x,
        {
            let mut y = min_y;
            while y < max_y
                invariant
                    self.wf(),
                    old_v.len() == VRAM_BYTES,
                    0 <= min_x <= x < max_x,
                    0 <= min_y <= y <= max_y,
                    max_x <= 1024,
                    max_y <= 512,
                    f == (|p: (u8, u8)| spec_fill_bytes(color)),
                    lsb == spec_fill_bytes(color).0,
                    msb == spec_fill_bytes(color).1,
                    spec_painted(
                        old_v,
                        self.vram@,
                        |px: int, py: int| (min_x <= px < x && min_y <= py < max_y) || (px == x && min_y <= py < y),
                        f,
                    ),
                decreases max_y - y,
            {
                let vram_addr = (2 * (y * 1024 + x)) as usize;
                proof {
                    lemma_paint_step(
                        old_v,
                        self.vram@,
                        |px: int, py: int| (min_x <= px < x && min_y <= py < max_y) || (px == x && min_y <= py < y),
                        |px: int, py: int| (min_x <= px < x && min_y <= py < max_y) || (px == x && min_y <= py < y + 1),
                        f,
                        x as int,
                        y as int,
                    );
                }
                assert(vram_addr == spec_addr(x as int, y as int));
                self.vram.set(vram_addr, lsb);
                self.vram.set(vram_addr + 1, msb);
                y = y + 1;
            }
            proof {
                lemma_painted_ext(
                    old_v,
                    self.vram@,
                    |px: int, py: int| (min_x <= px < x && min_y <= py < max_y) || (px == x && min_y <= py < y),
                    |px: int, py: int| min_x <= px < x + 1 && min_y <= py < max_y,
                    f,
                );
            }
            x = x + 1;
        }
        proof {
            lemma_painted_ext(
                old_v,
                self.vram@,
                |px: int, py: int| min_x <= px < x && min_y <= py < max_y,
                |x: int, y: int| spec_fill_covers(v, side, x, y),
                f,
            );
        }
    }

    /// Draws a flat rectangle at `v` (moved by the drawing offset) of size
    /// `side`, clipped to the drawing area; semi-transparent when
    /// `SEMI_TRANS`.
    pub fn draw_rectangle<const SEMI_TRANS: bool>(
        &mut self,
        v: Vertex,
        side: Vertex,
        color: Colour,
        ctx: &RenderingContext,
    )
        requires
            old(self).wf(),
            ctx.semi_transparency < 4,
            spec_rect_fits(v, side, *ctx),
            spec_clip_in_vram(spec_rect_clip(v, side, *ctx)),
        ensures
            final(self).wf(),
            spec_painted(
                old(self).vram@,
                final(self).vram@,
                |x: int, y: int| spec_in_clip(spec_rect_clip(v, side, *ctx), x, y),
                |p: (u8, u8)| spec_plot_bytes(p, color, SEMI_TRANS, ctx.semi_transparency, *ctx),
            ),
    {
        let vx = v.x + ctx.drawing_x_offset as i32;
        let vy = v.y + ctx.drawing_y_offset as i32;
        let ghost old_v = self.vram@;
        let ghost f = |p: (u8, u8)| spec_plot_bytes(p, color, SEMI_TRANS, ctx.semi_transparency, *ctx);
        let ghost covered = |x: int, y: int| spec_in_clip(spec_rect_clip(v, side, *ctx), x, y);
        let (min_x, min_y, max_x, max_y) = match self.clip_rect(vx, vy, vx + side.x - 1, vy + side.y - 1, ctx) {
            Some(r) => r,
            None => {
                proof {
                    lemma_painted_ext(old_v, old_v, |x: int, y: int| false, covered, f);
                }
                return;
            },
        };
        if min_x > max_x || min_y > max_y {
            proof {
                lemma_painted_ext(old_v, old_v, |x: int, y: int| false, covered, f);
            }
            return;
        }
        proof {
            lemma_painted_ext(old_v, old_v, |x: int, y: int| false, |px: int, py: int| min_x <= px <= max_x && min_y <= py < min_y, f);
        }
        let mut y = min_y;
        while y <= max_y
            invariant
                self.wf(),
                old_v.len() == VRAM_BYTES,
                0 <= min_x <= max_x < 1024,
                0 <= min_y <= y <= max_y + 1,
                max_y < 512,
                ctx.semi_transparency < 4,
                f == (|p: (u8, u8)| spec_plot_bytes(p, color, SEMI_TRANS, ctx.semi_transparency, *ctx)),
                spec_painted(old_v, self.vram@, |px: int, py: int| min_x <= px <= max_x && min_y <= py < y, f),
            decreases max_y + 1 - y,
        {
            let mut x = min_x;
            while x <= max_x
                invariant
                    self.wf(),
                    old_v.len() == VRAM_BYTES,
                    0 <= min_x <= x <= max_x + 1,
                    max_x < 1024,
                    0 <= min_y <= y <= max_y,
                    max_y < 512,
                    ctx.semi_transparency < 4,
                    f == (|p: (u8, u8)| spec_plot_bytes(p, color, SEMI_TRANS, ctx.semi_transparency, *ctx)),
                    spec_painted(
                        old_v,
                        self.vram@,
                        |px: int, py: int| (min_x <= px <= max_x && min_y <= py < y) || (py == y && min_x <= px < x),
                        f,
                    ),
                decreases max_x + 1 - x,
            {
                proof {
                    lemma_paint_step(
                        old_v,
                        self.vram@,
                        |px: int, py: int| (min_x <= px <= max_x && min_y <= py < y) || (py == y && min_x <= px < x),
                        |px: int, py: int| (min_x <= px <= max_x && min_y <= py < y) || (py == y && min_x <= px < x + 1),
                        f,
                        x as int,
                        y as int,
                    );
                }
                self.plot(x, y, color, SEMI_TRANS, ctx.semi_transparency, ctx);
                x = x + 1;
            }
            proof {
                lemma_painted_ext(
                    old_v,
                    self.vram@,
                    |px: int, py: int| (min_x <= px <= max_x && min_y <= py < y) || (py == y && min_x <= px < x),
                    |px: int, py: int| min_x <= px <= max_x && min_y <= py < y + 1,
                    f,
                );
            }
            y = y + 1;
        }
        proof {
            lemma_painted_ext(
                old_v,
                self.vram@,
                |px: int, py: int| min_x <= px <= max_x && min_y <= py < y,
                covered,
                f,
            );
        }
    }
}

/// Z component of the cross product of `v1 - v0` and `v2 - v0`.
pub open spec fn spec_cross(v0: Vertex, v1: Vertex, v2: Vertex) -> int {
    (v1.x - v0.x) * (v2.y - v0.y) - (v1.y - v0.y) * (v2.x - v0.x)
}

/// A coordinate small enough for cross products to fit in an `i32`.
pub open spec fn spec_coord_ok(v: Vertex) -> bool {
    -16384 < v.x < 16384 && -16384 < v.y < 16384
}

/// Whether `p` is on the inner side of edge `va`-`vb`, with the top-left
/// rule: a point exactly on a right-oriented or horizontal bottom edge is out.
pub open spec fn spec_edge_ok(va: Vertex, vb: Vertex, p: Vertex) -> bool {
    let c = spec_cross(va, vb, p);
    c > 0 || (c == 0 && !(vb.y > va.y) && !(vb.y == va.y && vb.x < va.x))
}

/// Whether `p` is rasterised as part of the clockwise triangle `v0 v1 v2`.
pub open spec fn spec_inside(p: Vertex, v0: Vertex, v1: Vertex, v2: Vertex) -> bool {
    spec_edge_ok(v0, v1, p) && spec_edge_ok(v1, v2, p) && spec_edge_ok(v2, v0, p)
}

/// The vertices in clockwise order: the first two swapped when the turn is
/// counter-clockwise.
pub open spec fn spec_ordered(vs: Seq<Vertex>) -> Seq<Vertex> {
    if spec_cross(vs[0], vs[1], vs[2]) < 0 {
        seq![vs[1], vs[0], vs[2]]
    } else {
        vs
    }
}

pub open spec fn spec_min3(a: i32, b: i32, c: i32) -> i32 {
    if a <= b && a <= c { a } else if b <= c { b } else { c }
}

pub open spec fn spec_max3(a: i32, b: i32, c: i32) -> i32 {
    if a >= b && a >= c { a } else if b >= c { b } else { c }
}

/// The clipped bounding box of a triangle.
pub open spec fn spec_tri_clip(vs: Seq<Vertex>, ctx: RenderingContext) -> Option<(i32, i32, i32, i32)> {
    spec_clip_rect(
        spec_min3(vs[0].x, vs[1].x, vs[2].x),
        spec_min3(vs[0].y, vs[1].y, vs[2].y),
        spec_max3(vs[0].x, vs[1].x, vs[2].x),
        spec_max3(vs[0].y, vs[1].y, vs[2].y),
        ctx,
    )
}

/// Whether a flat triangle covers pixel `(x, y)`: inside its clipped
/// bounding box (right and bottom edge excluded) and inside the triangle.
pub open spec fn spec_tri_covers(vs: Seq<Vertex>, ctx: RenderingContext, x: int, y: int) -> bool {
    let o = spec_ordered(vs);
    &&& spec_tri_clip(vs, ctx) matches Some(q)
    &&& q.0 <= x < q.2
    &&& q.1 <= y < q.3
    &&& spec_inside(Vertex { x: x as i32, y: y as i32 }, o[0], o[1], o[2])
}

/// `cross_product_z`: Z component of `(v1 - v0) x (v2 - v0)`.
pub fn cross_product_z(v0: Vertex, v1: Vertex, v2: Vertex) -> (r: i32)
    requires
        spec_coord_ok(v0),
        spec_coord_ok(v1),
        spec_coord_ok(v2),
    ensures
        r == spec_cross(v0, v1, v2),
{
    let a = v1.x - v0.x;
    let b = v2.y - v0.y;
    let c = v1.y - v0.y;
    let d = v2.x - v0.x;
    assert(-32768 < a < 32768 && -32768 < b < 32768);
    assert(-1073741824 < a * b < 1073741824) by (nonlinear_arith)
        requires
            -32768 < a < 32768,
            -32768 < b < 32768,
    ;
    assert(-1073741824 < c * d < 1073741824) by (nonlinear_arith)
        requires
            -32768 < c < 32768,
            -32768 < d < 32768,
    ;
    a * b - c * d
}

fn edge_ok(va: Vertex, vb: Vertex, p: Vertex) -> (r: bool)
    requires
        spec_coord_ok(va),
        spec_coord_ok(vb),
        spec_coord_ok(p),
    ensures
        r == spec_edge_ok(va, vb, p),
{
    let cpz = cross_product_z(va, vb, p);
    if cpz < 0 {
        return false;
    }
    if cpz == 0 {
        // On the edge itself: only top and left edges are drawn.
        if vb.y > va.y {
            return false;
        }
        if vb.y == va.y && vb.x < va.x {
            return false;
        }
    }
    true
}

/// Whether `p` is rasterised as part of the clockwise triangle `v0 v1 v2`
/// (top-left fill rule).
pub fn is_inside_triangle(p: Vertex, v0: Vertex, v1: Vertex, v2: Vertex) -> (r: bool)
    requires
        spec_coord_ok(p),
        spec_coord_ok(v0),
        spec_coord_ok(v1),
        spec_coord_ok(v2),
    ensures
        r == spec_inside(p, v0, v1, v2),
{
    edge_ok(v0, v1, p) && edge_ok(v1, v2, p) && edge_ok(v2, v0, p)
}

/// Puts the vertices in clockwise order (the Y axis points down).
pub fn ensure_vertex_order(vs: &mut [Vertex; 3])
    requires
        spec_coord_ok(old(vs)[0]),
        spec_coord_ok(old(vs)[1]),
        spec_coord_ok(old(vs)[2]),
    ensures
        final(vs)@ == spec_ordered(old(vs)@),
{
    let c = cross_product_z(vs[0], vs[1], vs[2]);
    if c < 0 {
        let tmp = vs[0];
        vs[0] = vs[1];
        vs[1] = tmp;
        assert(vs@ =~= seq![old(vs)@[1], old(vs)@[0], old(vs)@[2]]);
    } else {
        assert(vs@ =~= old(vs)@);
    }
}

/// Puts the vertices in clockwise order, swapping the first two attributes
/// along with the first two vertices.
pub fn ensure_vertex_order2<T: Copy>(vs: &mut [Vertex; 3], attrs: &mut [T; 3])
    requires
        spec_coord_ok(old(vs)[0]),
        spec_coord_ok(old(vs)[1]),
        spec_coord_ok(old(vs)[2]),
    ensures
        final(vs)@ == spec_ordered(old(vs)@),
        final(attrs)@ == if spec_cross(old(vs)[0], old(vs)[1], old(vs)[2]) < 0 {
            seq![old(attrs)@[1], old(attrs)@[0], old(attrs)@[2]]
        } else {
            old(attrs)@
        },
{
    let c = cross_product_z(vs[0], vs[1], vs[2]);
    ensure_vertex_order(vs);
    if c < 0 {
        let tmp = attrs[0];
        attrs[0] = attrs[1];
        attrs[1] = tmp;
        assert(attrs@ =~= seq![old(attrs)@[1], old(attrs)@[0], old(attrs)@[2]]);
    }
}

/// Puts the vertices in clockwise order, swapping the first two entries of
/// both attribute arrays along with the first two vertices.
pub fn ensure_vertex_order3<T: Copy, E: Copy>(vs: &mut [Vertex; 3], attrs: &mut [T; 3], attrs1: &mut [E; 3])
    requires
        spec_coord_ok(old(vs)[0]),
        spec_coord_ok(old(vs)[1]),
        spec_coord_ok(old(vs)[2]),
    ensures
        final(vs)@ == spec_ordered(old(vs)@),
        final(attrs)@ == if spec_cross(old(vs)[0], old(vs)[1], old(vs)[2]) < 0 {
            seq![old(attrs)@[1], old(attrs)@[0], old(attrs)@[2]]
        } else {
            old(attrs)@
        },
        final(attrs1)@ == if spec_cross(old(vs)[0], old(vs)[1], old(vs)[2]) < 0 {
            seq![old(attrs1)@[1], old(attrs1)@[0], old(attrs1)@[2]]
        } else {
            old(attrs1)@
        },
{
    let c = cross_product_z(vs[0], vs[1], vs[2]);
    ensure_vertex_order2(vs, attrs);
    if c < 0 {
        let tmp = attrs1[0];
        attrs1[0] = attrs1[1];
        attrs1[1] = tmp;
        assert(attrs1@ =~= seq![old(attrs1)@[1], old(attrs1)@[0], old(attrs1)@[2]]);
    }
}

/// `color` with the dithering offset of pixel `p` added to each channel.
pub fn apply_dithering(color: Colour, p: Vertex) -> (r: Colour)
    ensures
        r == spec_dither(color, p.x as int, p.y as int),
{
    let mut c = color;
    c.apply_dithering(p.x, p.y);
    c
}

fn min3(a: i32, b: i32, c: i32) -> (r: i32)
    ensures
        r == spec_min3(a, b, c),
{
    if a <= b && a <= c { a } else if b <= c { b } else { c }
}

fn max3(a: i32, b: i32, c: i32) -> (r: i32)
    ensures
        r == spec_max3(a, b, c),
{
    if a >= b && a >= c { a } else if b >= c { b } else { c }
}

impl Renderer {
    /// Draws a flat triangle, clipped to the drawing area; semi-transparent
    /// when `SEMI_TRANS`. The vertices are put in clockwise order first.
    pub fn render_triangle_mono<const SEMI_TRANS: bool>(
        &mut self,
        mono: Colour,
        vs: &mut [Vertex; 3],
        ctx: &RenderingContext,
    )
        requires
            old(self).wf(),
            ctx.semi_transparency < 4,
            spec_coord_ok(old(vs)[0]),
            spec_coord_ok(old(vs)[1]),
            spec_coord_ok(old(vs)[2]),
            spec_tri_clip(old(vs)@, *ctx) matches Some(q) ==> q.2 <= 1024 && q.3 <= 512,
        ensures
            final(vs)@ == spec_ordered(old(vs)@),
            final(self).wf(),
            spec_painted(
                old(self).vram@,
                final(self).vram@,
                |x: int, y: int| spec_tri_covers(old(vs)@, *ctx, x, y),
                |p: (u8, u8)| spec_plot_bytes(p, mono, SEMI_TRANS, ctx.semi_transparency, *ctx),
            ),
    {
        let ghost ovs = vs@;
        let ghost old_v = self.vram@;
        let ghost f = |p: (u8, u8)| spec_plot_bytes(p, mono, SEMI_TRANS, ctx.semi_transparency, *ctx);
        let ghost covered = |x: int, y: int| spec_tri_covers(ovs, *ctx, x, y);
        ensure_vertex_order(vs);
        let v0 = vs[0];
        let v1 = vs[1];
        let v2 = vs[2];
        assert(spec_min3(v0.x, v1.x, v2.x) == spec_min3(ovs[0].x, ovs[1].x, ovs[2].x));
        assert(spec_min3(v0.y, v1.y, v2.y) == spec_min3(ovs[0].y, ovs[1].y, ovs[2].y));
        assert(spec_max3(v0.x, v1.x, v2.x) == spec_max3(ovs[0].x, ovs[1].x, ovs[2].x));
        assert(spec_max3(v0.y, v1.y, v2.y) == spec_max3(ovs[0].y, ovs[1].y, ovs[2].y));
        let bx0 = min3(v0.x, v1.x, v2.x);
        let bx1 = max3(v0.x, v1.x, v2.x);
        let by0 = min3(v0.y, v1.y, v2.y);
        let by1 = max3(v0.y, v1.y, v2.y);
        let (min_x, min_y, max_x, max_y) = match self.clip_rect(bx0, by0, bx1, by1, ctx) {
            Some(r) => r,
            None => {
                proof {
                    lemma_painted_ext(old_v, old_v, |x: int, y: int| false, covered, f);
                }
                return;
            },
        };
        if min_x >= max_x || min_y >= max_y {
            proof {
                lemma_painted_ext(old_v, old_v, |x: int, y: int| false, covered, f);
            }
            return;
        }
        proof {
            lemma_painted_ext(old_v, old_v, |x: int, y: int| false, |px: int, py: int| false, f);
        }
        let mut y = min_y;
        while y < max_y
            invariant
                self.wf(),
                old_v.len() == VRAM_BYTES,
                0 <= min_x < max_x <= 1024,
                0 <= min_y <= y <= max_y,
                max_y <= 512,
                ctx.semi_transparency < 4,
                spec_coord_ok(v0),
                spec_coord_ok(v1),
                spec_coord_ok(v2),
                f == (|p: (u8, u8)| spec_plot_bytes(p, mono, SEMI_TRANS, ctx.semi_transparency, *ctx)),
                spec_painted(
                    old_v,
                    self.vram@,
                    |px: int, py: int| min_x <= px < max_x && min_y <= py < y && spec_inside(Vertex { x: px as i32, y: py as i32 }, v0, v1, v2),
                    f,
                ),
            decreases max_y - y,
        {
            let mut x = min_x;
            while x < max_x
                invariant
                    self.wf(),
                    old_v.len() == VRAM_BYTES,
                    0 <= min_x <= x <= max_x,
                    max_x <= 1024,
                    0 <= min_y <= y < max_y,
                    max_y <= 512,
                    ctx.semi_transparency < 4,
                    spec_coord_ok(v0),
                    spec_coord_ok(v1),
                    spec_coord_ok(v2),
                    f == (|p: (u8, u8)| spec_plot_bytes(p, mono, SEMI_TRANS, ctx.semi_transparency, *ctx)),
                    spec_painted(
                        old_v,
                        self.vram@,
                        |px: int, py: int| ((min_x <= px < max_x && min_y <= py < y) || (py == y && min_x <= px < x)) && spec_inside(Vertex { x: px as i32, y: py as i32 }, v0, v1, v2),
                        f,
                    ),
                decreases max_x - x,
            {
                let p = Vertex { x, y };
                if is_inside_triangle(p, v0, v1, v2) {
                    proof {
                        lemma_paint_step(
                            old_v,
                            self.vram@,
                            |px: int, py: int| ((min_x <= px < max_x && min_y <= py < y) || (py == y && min_x <= px < x)) && spec_inside(Vertex { x: px as i32, y: py as i32 }, v0, v1, v2),
                            |px: int, py: int| ((min_x <= px < max_x && min_y <= py < y) || (py == y && min_x <= px < x + 1)) && spec_inside(Vertex { x: px as i32, y: py as i32 }, v0, v1, v2),
                            f,
                            x as int,
                            y as int,
                        );
                    }
                    self.plot(x, y, mono, SEMI_TRANS, ctx.semi_transparency, ctx);
                } else {
                    proof {
                        lemma_painted_ext(
                            old_v,
                            self.vram@,
                            |px: int, py: int| ((min_x <= px < max_x && min_y <= py < y) || (py == y && min_x <= px < x)) && spec_inside(Vertex { x: px as i32, y: py as i32 }, v0, v1, v2),
                            |px: int, py: int| ((min_x <= px < max_x && min_y <= py < y) || (py == y && min_x <= px < x + 1)) && spec_inside(Vertex { x: px as i32, y: py as i32 }, v0, v1, v2),
                            f,
                        );
                    }
                }
                x = x + 1;
            }
            proof {
                lemma_painted_ext(
                    old_v,
                    self.vram@,
                    |px: int, py: int| ((min_x <= px < max_x && min_y <= py < y) || (py == y && min_x <= px < x)) && spec_inside(Vertex { x: px as i32, y: py as i32 }, v0, v1, v2),
                    |px: int, py: int| min_x <= px < max_x && min_y <= py < y + 1 && spec_inside(Vertex { x: px as i32, y: py as i32 }, v0, v1, v2),
                    f,
                );
            }
            y = y + 1;
        }
        proof {
            lemma_painted_ext(
                old_v,
                self.vram@,
                |px: int, py: int| min_x <= px < max_x && min_y <= py < y && spec_inside(Vertex { x: px as i32, y: py as i32 }, v0, v1, v2),
                covered,
                f,
            );
        }
    }
}

/// Texture coordinates `(x, y)` after the texture window: the masked bits
/// (in steps of 8 texels) replaced by those of the window offset.
pub open spec fn spec_texel_offset(x: usize, y: usize, ctx: RenderingContext) -> (usize, usize) {
    (spec_window(x, ctx.texture_window_x_mask, ctx.texture_window_x_offset),
     spec_window(y, ctx.texture_window_y_mask, ctx.texture_window_y_offset))
}

/// One texture coordinate after a texture window of `mask` and `offset`
/// (both in steps of 8 texels).
pub open spec fn spec_window(c: usize, mask: u8, offset: u8) -> usize {
    (c & !(((mask as usize) * 8) as usize)) | ((((offset as usize) & (mask as usize)) * 8) as usize)
}

/// A colour look-up table: its position in VRAM, in pixels.
#[derive(Debug, Clone, Copy)]
pub struct Clut {
    pub base_x: usize,
    pub base_y: usize,
}

/// Byte address of entry `index` of a CLUT.
pub open spec fn spec_clut_addr(clut: Clut, index: int) -> int {
    2 * (clut.base_y * 1024 + clut.base_x + index)
}

impl Clut {
    /// The CLUT of a CLUT attribute: X in 16-pixel steps (bits 0-5), Y in
    /// lines (bits 6-14).
    pub fn new(data: u16) -> (r: Clut)
        ensures
            r.base_x == (data & 0x3f) * 16,
            r.base_y == (data >> 6) & 0x1ff,
    {
        Clut { base_x: ((data & 0x3f) as usize) * 16, base_y: ((data >> 6) & 0x1ff) as usize }
    }

    /// The pixel bytes `(lsb, msb)` of entry `index`.
    pub fn get_color(&self, renderer: &Renderer, index: u8) -> (r: (u8, u8))
        requires
            spec_clut_addr(*self, index as int) + 1 < renderer.vram@.len(),
        ensures
            r == (
                renderer.vram@[spec_clut_addr(*self, index as int)],
                renderer.vram@[spec_clut_addr(*self, index as int) + 1],
            ),
    {
        let _len = renderer.vram.len();
        let a = 2 * (self.base_y * 1024 + self.base_x + index as usize);
        (renderer.vram[a], renderer.vram[a + 1])
    }
}

/// A texture page: its position in VRAM, drawing attributes and CLUT.
#[derive(Debug, Clone, Copy)]
pub struct Texture {
    pub base_x: usize,
    pub base_y: usize,
    pub semi_transparency: u8,
    pub dithering: bool,
    pub draw_to_display: bool,
    pub depth: TextureDepth,
    pub clut: Clut,
}

/// Texture depth of a texture page attribute (bits 7-8).
pub open spec fn spec_page_depth(data: u16) -> TextureDepth {
    if (data >> 7) & 3 == 0 {
        TextureDepth::T4Bit
    } else if (data >> 7) & 3 == 1 {
        TextureDepth::T8Bit
    } else {
        TextureDepth::T15Bit
    }
}

/// Byte read for a 4- or 8-bit texel: the page's row `y`, byte `x_byte`.
pub open spec fn spec_index_addr(t: Texture, y: int, x_byte: int) -> int {
    t.base_y * 2048 + y * 2048 + 2 * t.base_x + x_byte
}

/// Whether a texel read at `(ux, uy)` stays inside VRAM of length `len`.
pub open spec fn spec_texel_ok(t: Texture, vram: Seq<u8>, ux: usize, uy: usize, ctx: RenderingContext) -> bool {
    let o = spec_texel_offset(ux, uy, ctx);
    match t.depth {
        TextureDepth::T4Bit => {
            let a = spec_index_addr(t, o.1 as int, (o.0 / 2) as int);
            &&& a < vram.len()
            &&& spec_clut_addr(t.clut, spec_nibble(vram[a], o.0) as int) + 1 < vram.len()
        },
        TextureDepth::T8Bit => {
            let a = spec_index_addr(t, o.1 as int, o.0 as int);
            &&& a < vram.len()
            &&& spec_clut_addr(t.clut, vram[a] as int) + 1 < vram.len()
        },
        TextureDepth::T15Bit => 2 * ((t.base_y + o.1) * 1024 + t.base_x + o.0) + 1 < vram.len(),
    }
}

/// The 4-bit CLUT index in byte `b` for texel column `x`: the low nibble
/// for even columns, the high one for odd.
pub open spec fn spec_nibble(b: u8, x: usize) -> u8 {
    if x & 1 == 1 {
        ((b >> 4u8) & 0xf) as u8
    } else {
        (b & 0xf) as u8
    }
}

/// Pixel bytes `(lsb, msb)` of the texel at `(ux, uy)`.
pub open spec fn spec_texel_bytes(t: Texture, vram: Seq<u8>, ux: usize, uy: usize, ctx: RenderingContext) -> (u8, u8) {
    let o = spec_texel_offset(ux, uy, ctx);
    match t.depth {
        TextureDepth::T4Bit => {
            let n = spec_nibble(vram[spec_index_addr(t, o.1 as int, (o.0 / 2) as int)], o.0);
            (vram[spec_clut_addr(t.clut, n as int)], vram[spec_clut_addr(t.clut, n as int) + 1])
        },
        TextureDepth::T8Bit => {
            let n = vram[spec_index_addr(t, o.1 as int, o.0 as int)];
            (vram[spec_clut_addr(t.clut, n as int)], vram[spec_clut_addr(t.clut, n as int) + 1])
        },
        TextureDepth::T15Bit => {
            let a = 2 * ((t.base_y + o.1) * 1024 + t.base_x + o.0);
            (vram[a], vram[a + 1])
        },
    }
}

impl Texture {
    /// The texture page of a texture page attribute, with CLUT `clut`.
    pub fn new(data: u16, clut: Clut) -> (r: Texture)
        requires
            (data >> 7) & 3 != 3,
        ensures
            r.base_x == (data & 0xf) * 64,
            r.base_y == ((data >> 4) & 1) * 256,
            r.semi_transparency == (data >> 5) & 3,
            r.dithering == ((data >> 9) & 1 != 0),
            r.draw_to_display == ((data >> 10) & 1 != 0),
            r.depth == spec_page_depth(data),
            r.clut == clut,
    {
        let base_x = ((data & 0xf) as usize) * 64;
        let base_y = (((data >> 4) & 1) as usize) * 256;
        let semi_transparency = ((data >> 5) & 3) as u8;
        proof {
            crate::bitfacts::lemma_and_le_u16(data >> 5, 3);
        }
        let dithering = (data >> 9) & 1 != 0;
        let draw_to_display = (data >> 10) & 1 != 0;
        let d = (data >> 7) & 3;
        let depth = if d == 0 {
            TextureDepth::T4Bit
        } else if d == 1 {
            TextureDepth::T8Bit
        } else {
            TextureDepth::T15Bit
        };
        Texture { base_x, base_y, semi_transparency, dithering, draw_to_display, depth, clut }
    }

    /// The colour of the texel at `(uv_x, uv_y)` (after the texture window),
    /// looked up in the CLUT for 4- and 8-bit textures.
    pub fn get_texel(&self, renderer: &Renderer, uv_x: usize, uv_y: usize, ctx: &RenderingContext) -> (r: Colour)
        requires
            spec_texel_ok(*self, renderer.vram@, uv_x, uv_y, *ctx),
        ensures
            r == spec_colour_from_pixel(
                spec_halfword(
                    spec_texel_bytes(*self, renderer.vram@, uv_x, uv_y, *ctx).0,
                    spec_texel_bytes(*self, renderer.vram@, uv_x, uv_y, *ctx).1,
                ),
            ),
    {
        let _len = renderer.vram.len();
        let o = renderer.compute_texel_offset(uv_x, uv_y, ctx);
        let ux = o[0];
        let uy = o[1];
        let (pixel_lsb, pixel_msb) = match self.depth {
            TextureDepth::T4Bit => {
                let pixel = renderer.vram[self.base_y * 2048 + uy * 2048 + 2 * self.base_x + ux / 2];
                let index = if ux & 1 == 1 {
                    (pixel >> 4u8) & 0xF
                } else {
                    pixel & 0xF
                };
                self.clut.get_color(renderer, index)
            },
            TextureDepth::T8Bit => {
                let index = renderer.vram[self.base_y * 2048 + uy * 2048 + 2 * self.base_x + ux];
                self.clut.get_color(renderer, index)
            },
            TextureDepth::T15Bit => {
                let tx = self.base_x + ux;
                let ty = self.base_y + uy;
                (renderer.vram[2 * (ty * 1024 + tx)], renderer.vram[2 * (ty * 1024 + tx) + 1])
            },
        };
        Colour::from_bytes(pixel_msb, pixel_lsb)
    }
}

impl Renderer {
    /// Texture coordinates after the texture window of `ctx`.
    pub fn compute_texel_offset(&self, x: usize, y: usize, ctx: &RenderingContext) -> (r: [usize; 2])
        ensures
            r[0] == spec_texel_offset(x, y, *ctx).0,
            r[1] == spec_texel_offset(x, y, *ctx).1,
    {
        let x_mask = ctx.texture_window_x_mask as usize;
        let y_mask = ctx.texture_window_y_mask as usize;
        let x_offset = ctx.texture_window_x_offset as usize;
        let y_offset = ctx.texture_window_y_offset as usize;
        proof {
            crate::bitfacts::lemma_and_le_usize(x_offset, x_mask);
            crate::bitfacts::lemma_and_le_usize(y_offset, y_mask);
        }
        [(x & (!(x_mask * 8))) | ((x_offset & x_mask) * 8), (y & (!(y_mask * 8))) | ((y_offset & y_mask) * 8)]
    }
}

/// Pixel `(x, y)` that halfword `k` of a transfer to the rectangle at `tl`
/// of width `w` goes to: row by row, wrapped around VRAM.
pub open spec fn spec_xfer_pos(tl: (u16, u16), w: u16, k: int) -> (int, int) {
    (((((tl.0 + k % (w as int)) as u16) & 0x3ff) as int), ((((tl.1 + k / (w as int)) as u16) & 0x1ff) as int))
}

/// Halfword `k` of a sequence of words, low halfword first.
pub open spec fn spec_word_half(data: Seq<u32>, k: int) -> u16 {
    if k % 2 == 0 {
        (data[k / 2] & 0xffff) as u16
    } else {
        (data[k / 2] >> 16u32) as u16
    }
}

/// VRAM after the first `n` halfwords of `data` were written to the
/// rectangle at `tl` of width `w`.
pub open spec fn spec_copy_in(v: Seq<u8>, tl: (u16, u16), w: u16, data: Seq<u32>, n: nat) -> Seq<u8>
    decreases n,
{
    if n == 0 {
        v
    } else {
        let k = n - 1;
        let hw = spec_word_half(data, k);
        let p = spec_xfer_pos(tl, w, k);
        spec_set_px(spec_copy_in(v, tl, w, data, (n - 1) as nat), p.0, p.1, ((hw & 0xff) as u8, (hw >> 8u16) as u8))
    }
}

/// Halfword stored at pixel `p`.
pub open spec fn spec_vram_hw(v: Seq<u8>, p: (int, int)) -> u32 {
    (v[spec_addr(p.0, p.1)] as u32) | ((v[spec_addr(p.0, p.1) + 1] as u32) << 8u32)
}

/// Word `j` read back from the rectangle at `tl` of width `w`.
pub open spec fn spec_readback_word(v: Seq<u8>, tl: (u16, u16), w: u16, j: int) -> u32 {
    spec_vram_hw(v, spec_xfer_pos(tl, w, 2 * j)) | (spec_vram_hw(v, spec_xfer_pos(tl, w, 2 * j + 1)) << 16u32)
}

/// Row and column of halfword `k + 1` from those of halfword `k`.
pub proof fn lemma_xfer_step(k: int, w: int)
    requires
        w > 0,
        k >= 0,
    ensures
        k % w + 1 == w ==> (k + 1) / w == k / w + 1 && (k + 1) % w == 0,
        k % w + 1 < w ==> (k + 1) / w == k / w && (k + 1) % w == k % w + 1,
        0 <= k % w < w,
        0 <= k / w,
{
    vstd::arithmetic::div_mod::lemma_fundamental_div_mod(k, w);
    vstd::arithmetic::div_mod::lemma_mod_pos_bound(k, w);
    assert(0 <= k / w) by {
        vstd::arithmetic::div_mod::lemma_div_pos_is_pos(k, w);
    }
    if k % w + 1 == w {
        assert(k + 1 == (k / w + 1) * w + 0) by (nonlinear_arith)
            requires
                k == w * (k / w) + k % w,
                k % w + 1 == w,
        ;
        vstd::arithmetic::div_mod::lemma_fundamental_div_mod_converse(k + 1, w, k / w + 1, 0);
    } else {
        assert(k + 1 == (k / w) * w + (k % w + 1)) by (nonlinear_arith)
            requires
                k == w * (k / w) + k % w,
        ;
        vstd::arithmetic::div_mod::lemma_fundamental_div_mod_converse(k + 1, w, k / w, k % w + 1);
    }
}

/// `k / w` is at most `h` when `k < w * (h + 1)`.
pub proof fn lemma_row_bound(k: int, w: int, h: int)
    requires
        w > 0,
        k >= 0,
        h >= 0,
        k < w * (h + 1),
    ensures
        k / w <= h,
{
    vstd::arithmetic::div_mod::lemma_fundamental_div_mod(k, w);
    vstd::arithmetic::div_mod::lemma_mod_pos_bound(k, w);
    if k / w > h {
        assert(w * (k / w) >= w * (h + 1)) by (nonlinear_arith)
            requires
                k / w >= h + 1,
                w > 0,
        ;
    }
}

impl Renderer {
    /// Writes one transferred halfword to the pixel of halfword `k` and
    /// advances the row and column.
    fn put_halfword(&mut self, top_left: (u16, u16), w: u16, halfword: u16, row: &mut u16, col: &mut u16, Ghost(k): Ghost<int>)
        requires
            old(self).wf(),
            w > 0,
            k >= 0,
            *old(row) == k / (w as int),
            *old(col) == k % (w as int),
            top_left.0 + w <= 0xffff,
            top_left.1 + (k + 1) / (w as int) <= 0xffff,
        ensures
            final(self).wf(),
            final(self).vram@ == spec_set_px(
                old(self).vram@,
                spec_xfer_pos(top_left, w, k).0,
                spec_xfer_pos(top_left, w, k).1,
                ((halfword & 0xff) as u8, (halfword >> 8u16) as u8),
            ),
            *final(row) == (k + 1) / (w as int),
            *final(col) == (k + 1) % (w as int),
    {
        proof {
            lemma_xfer_step(k, w as int);
        }
        let sr: u16 = top_left.1 + *row;
        let sc: u16 = top_left.0 + *col;
        let vram_row = (sr & 0x1FF) as usize;
        let vram_col = (sc & 0x3FF) as usize;
        let lsb = (halfword & 0xff) as u8;
        let msb = (halfword >> 8) as u8;
        proof {
            crate::bitfacts::lemma_and_le_u16(sr, 0x1ff);
            crate::bitfacts::lemma_and_le_u16(sc, 0x3ff);
        }
        let vram_addr = 2 * (1024 * vram_row + vram_col);
        self.vram.set(vram_addr, lsb);
        self.vram.set(vram_addr + 1, msb);
        *col = *col + 1;
        if *col == w {
            *col = 0;
            *row = *row + 1;
        }
    }

    /// Copies `data` (two halfwords per word, low first) into the rectangle
    /// at `top_left` of width `size.0`, row by row, wrapping around VRAM.
    pub fn cpu_to_vram_copy(&mut self, top_left: (u16, u16), size: (u16, u16), data: &Vec<u32>)
        requires
            old(self).wf(),
            size.0 > 0,
            top_left.0 + size.0 <= 0xffff,
            top_left.1 + (2 * data@.len()) as int / (size.0 as int) <= 0xffff,
        ensures
            final(self).wf(),
            final(self).vram@ == spec_copy_in(old(self).vram@, top_left, size.0, data@, (2 * data@.len()) as nat),
    {
        let ghost old_v = self.vram@;
        let w = size.0;
        let mut current_row: u16 = 0;
        let mut current_col: u16 = 0;
        let mut j: usize = 0;
        proof {
            vstd::arithmetic::div_mod::lemma_fundamental_div_mod_converse(0, w as int, 0, 0);
        }
        while j < data.len()
            invariant
                self.wf(),
                j <= data@.len(),
                w == size.0,
                w > 0,
                top_left.0 + w <= 0xffff,
                top_left.1 + (2 * data@.len()) as int / (w as int) <= 0xffff,
                current_row == (2 * j) / (w as int),
                current_col == (2 * j) % (w as int),
                self.vram@ == spec_copy_in(old_v, top_left, w, data@, (2 * j) as nat),
            decreases data@.len() - j,
        {
            let word = data[j];
            proof {
                vstd::arithmetic::div_mod::lemma_div_is_ordered(2 * j + 1, 2 * data@.len() as int, w as int);
                vstd::arithmetic::div_mod::lemma_div_is_ordered(2 * j + 2, 2 * data@.len() as int, w as int);
                assert((2 * j) % 2 == 0);
                assert((2 * j + 1) % 2 == 1);
                assert((2 * j) / 2 == j);
                assert((2 * j + 1) / 2 == j);
            }
            let lo = (word & 0xffff) as u16;
            let hi = (word >> 16) as u16;
            assert(lo == spec_word_half(data@, 2 * j as int));
            assert(hi == spec_word_half(data@, 2 * j + 1));
            self.put_halfword(top_left, w, lo, &mut current_row, &mut current_col, Ghost(2 * j as int));
            assert(self.vram@ == spec_copy_in(old_v, top_left, w, data@, (2 * j + 1) as nat));
            self.put_halfword(top_left, w, hi, &mut current_row, &mut current_col, Ghost(2 * j as int + 1));
            assert(self.vram@ == spec_copy_in(old_v, top_left, w, data@, (2 * j + 2) as nat));
            j = j + 1;
        }
    }

    /// Reads the rectangle at `top_left` of size `size` back, row by row,
    /// two halfwords per word (low first); an odd count leaves one more
    /// pixel in the high half of the last word.
    pub fn vram_to_cpu_copy(&self, top_left: (u16, u16), size: (u16, u16)) -> (r: Vec<u32>)
        requires
            self.wf(),
            size.0 > 0,
            size.1 > 0,
            top_left.0 + size.0 <= 0xffff,
            top_left.1 + size.1 + 1 <= 0xffff,
        ensures
            r@.len() == (size.0 * size.1 + 1) / 2,
            forall|j: int| 0 <= j < r@.len() ==> r@[j] == spec_readback_word(self.vram@, top_left, size.0, j),
    {
        let mut data: Vec<u32> = Vec::new();
        let w = size.0;
        assert((size.0 as int) * (size.1 as int) <= 0xffff * 0xffff) by (nonlinear_arith)
            requires
                size.0 <= 0xffff,
                size.1 <= 0xffff,
        ;
        let imgsize: u32 = size.0 as u32 * size.1 as u32;
        assert(imgsize == size.0 * size.1) by (nonlinear_arith)
            requires
                imgsize == (size.0 as u32) * (size.1 as u32),
                size.0 <= 0xffff,
                size.1 <= 0xffff,
        ;
        assert(size.0 * size.1 < 0xffff_ffff) by (nonlinear_arith)
            requires
                size.0 <= 0xffff,
                size.1 <= 0xffff,
        ;
        let plus: u32 = imgsize + 1;
        let rounded: u32 = plus & !1;
        assert(rounded / 2 == plus / 2) by (bit_vector)
            requires
                rounded == plus & !1u32,
        ;
        let imgsize: u32 = rounded;
        let words: u32 = imgsize / 2;
        let mut current_row: u16 = 0;
        let mut current_col: u16 = 0;
        let mut j: u32 = 0;
        proof {
            vstd::arithmetic::div_mod::lemma_fundamental_div_mod_converse(0, w as int, 0, 0);
        }
        while j < words
            invariant
                j <= words,
                words == (size.0 * size.1 + 1) / 2,
                w == size.0,
                w > 0,
                size.1 > 0,
                self.wf(),
                top_left.0 + w <= 0xffff,
                top_left.1 + size.1 + 1 <= 0xffff,
                current_row == (2 * j) / (w as int),
                current_col == (2 * j) % (w as int),
                data@.len() == j,
                forall|i: int| 0 <= i < j ==> data@[i] == spec_readback_word(self.vram@, top_left, w, i),
            decreases words - j,
        {
            proof {
                assert(2 * j + 1 < (w as int) * (size.1 + 1)) by (nonlinear_arith)
                    requires
                        j < words,
                        words == (size.0 * size.1 + 1) / 2,
                        w == size.0,
                        w > 0,
                ;
                lemma_row_bound(2 * j as int, w as int, size.1 as int);
                lemma_row_bound(2 * j + 1, w as int, size.1 as int);
                lemma_xfer_step(2 * j as int, w as int);
                lemma_xfer_step(2 * j + 1, w as int);
            }
            let h0 = self.read_halfword(top_left, current_row, current_col);
            current_col = current_col + 1;
            if current_col == w {
                current_col = 0;
                current_row = current_row + 1;
            }
            let h1 = self.read_halfword(top_left, current_row, current_col);
            current_col = current_col + 1;
            if current_col == w {
                current_col = 0;
                current_row = current_row + 1;
            }
            let word = h0 | (h1 << 16);
            data.push(word);
            j = j + 1;
        }
        data
    }

    /// The halfword at row `row`, column `col` of the rectangle at `tl`,
    /// wrapped around VRAM.
    fn read_halfword(&self, tl: (u16, u16), row: u16, col: u16) -> (r: u32)
        requires
            self.wf(),
            tl.0 + col <= 0xffff,
            tl.1 + row <= 0xffff,
        ensures
            r == spec_vram_hw(
                self.vram@,
                ((((tl.0 + col) as u16) & 0x3ff) as int, (((tl.1 + row) as u16) & 0x1ff) as int),
            ),
            r <= 0xffff,
    {
        let sr: u16 = tl.1 + row;
        let sc: u16 = tl.0 + col;
        let vram_row = (sr & 0x1FF) as usize;
        let vram_col = (sc & 0x3FF) as usize;
        proof {
            crate::bitfacts::lemma_and_le_u16(sr, 0x1ff);
            crate::bitfacts::lemma_and_le_u16(sc, 0x3ff);
        }
        let vram_addr = 2 * (1024 * vram_row + vram_col);
        let lsb = self.vram[vram_addr];
        let msb = self.vram[vram_addr + 1];
        let r = (lsb as u32) | ((msb as u32) << 8);
        assert((lsb as u32) | ((msb as u32) << 8u32) <= 0xffff) by (bit_vector);
        r
    }
}

/// VRAM after copying the first `y` rows of a `w`-pixel wide block from
/// `src` to `dst`, and then the first `x` pixels of row `y`, one pixel at a
/// time in that order (so an overlapping copy reads pixels already written).
pub open spec fn spec_blit(v: Seq<u8>, src: Vertex, dst: Vertex, w: int, y: int, x: int) -> Seq<u8>
    decreases y, x,
{
    if y <= 0 && x <= 0 {
        v
    } else if x <= 0 {
        spec_blit(v, src, dst, w, y - 1, w)
    } else {
        let prev = spec_blit(v, src, dst, w, y, x - 1);
        spec_set_px(prev, dst.x + x - 1, dst.y + y, spec_px(prev, src.x + x - 1, src.y + y))
    }
}

/// Bytes a line pixel at `(x, y)` gets: `c`, blended over the old pixel when
/// `semi`, then dithered; unchanged when masked off.
pub open spec fn spec_line_bytes(p: (u8, u8), c: Colour, x: int, y: int, semi: bool, mode: u8, ctx: RenderingContext) -> (u8, u8) {
    if ctx.preserve_masked_pixels && (p.1 & 0x80) != 0 {
        p
    } else {
        let s = spec_dither(spec_shade(c, spec_colour_from_pixel(spec_halfword(p.0, p.1)), semi, mode), x, y);
        (spec_lo(s), spec_hi(s, ctx))
    }
}

/// `c` with the dithering offset of pixel `(x, y)` added to each channel.
pub open spec fn spec_dither(c: Colour, x: int, y: int) -> Colour {
    let o = spec_dither_offset(((y as i32) & 3) as int, ((x as i32) & 3) as int);
    Colour {
        r: spec_saturating_add_signed(c.r, o),
        g: spec_saturating_add_signed(c.g, o),
        b: spec_saturating_add_signed(c.b, o),
        m: c.m,
    }
}

/// The fixed parameters of a line walk: end points of the clipped line,
/// the absolute X distance `dx`, the negated absolute Y distance `dy`, and
/// the step directions.
pub struct LineWalk {
    pub x0: int,
    pub y0: int,
    pub x1: int,
    pub y1: int,
    pub dx: int,
    pub dy: int,
    pub sx: int,
    pub sy: int,
}

/// The line walk from `(x0, y0)` to `(x1, y1)`.
pub open spec fn spec_walk(x0: int, y0: int, x1: int, y1: int) -> LineWalk {
    LineWalk {
        x0,
        y0,
        x1,
        y1,
        dx: if x1 >= x0 { x1 - x0 } else { x0 - x1 },
        dy: if y1 >= y0 { y0 - y1 } else { y1 - y0 },
        sx: if x0 < x1 { 1 } else { -1 },
        sy: if y0 < y1 { 1 } else { -1 },
    }
}

/// `a` lies between `from` and `to` (inclusive).
pub open spec fn spec_between(a: int, from: int, to: int) -> bool {
    (from <= a <= to) || (to <= a <= from)
}

/// Distance still to go.
pub open spec fn spec_dist(a: int, to: int) -> int {
    if a <= to { to - a } else { a - to }
}

/// Whether the walk at `(x, y)` with error `err` is in a reachable state.
pub open spec fn spec_walk_ok(l: LineWalk, x: int, y: int, err: int) -> bool {
    &&& spec_between(x, l.x0, l.x1)
    &&& spec_between(y, l.y0, l.y1)
    &&& 2 * l.dy <= err <= 2 * l.dx
}

/// The pixels that a line walk visits from state `(x, y, err)`, each plotted
/// with the colour that `colour(x, y)` gives, over VRAM `v`.
pub open spec fn spec_line_from(
    v: Seq<u8>,
    l: LineWalk,
    x: int,
    y: int,
    err: int,
    colour: spec_fn(int, int) -> Colour,
    semi: bool,
    mode: u8,
    ctx: RenderingContext,
) -> Seq<u8>
    decreases spec_dist(x, l.x1) + spec_dist(y, l.y1),
{
    let v2 = spec_set_px(v, x, y, spec_line_bytes(spec_px(v, x, y), colour(x, y), x, y, semi, mode, ctx));
    let e2 = 2 * err;
    if !spec_walk_ok(l, x, y, err) || l.dx < 0 || l.dy > 0 || (l.sx != 1 && l.sx != -1) || (l.sy != 1 && l.sy != -1)
        || (l.sx == 1) != (l.x0 < l.x1) || (l.sy == 1) != (l.y0 < l.y1) {
        v2
    } else if e2 >= l.dy && x == l.x1 {
        v2
    } else {
        let x2 = if e2 >= l.dy { x + l.sx } else { x };
        let err2 = if e2 >= l.dy { err + l.dy } else { err };
        if e2 <= l.dx && y == l.y1 {
            v2
        } else {
            let y2 = if e2 <= l.dx { y + l.sy } else { y };
            let err3 = if e2 <= l.dx { err2 + l.dx } else { err2 };
            spec_line_from(v2, l, x2, y2, err3, colour, semi, mode, ctx)
        }
    }
}

impl Renderer {
    /// Copies the `size` block at `src` to `dst`, row by row, one pixel at a
    /// time.
    pub fn vram2vram_blit(&mut self, src: Vertex, dst: Vertex, size: Vertex)
        requires
            old(self).wf(),
            0 <= size.x,
            0 <= size.y,
            0 <= src.x,
            0 <= src.y,
            0 <= dst.x,
            0 <= dst.y,
            size.y == 0 || size.x == 0 || (src.x + size.x <= 1024 && dst.x + size.x <= 1024 && src.y + size.y <= 512 && dst.y + size.y <= 512),
        ensures
            final(self).wf(),
            final(self).vram@ == spec_blit(old(self).vram@, src, dst, size.x as int, size.y as int, 0),
    {
        let width = size.x as usize;
        let height = size.y as usize;
        let ghost old_v = self.vram@;
        if width == 0 {
            proof {
                lemma_blit_empty_rows(old_v, src, dst, size.y as int);
            }
            return;
        }
        if height == 0 {
            return;
        }
        let mut y: usize = 0;
        while y < height
            invariant
                self.wf(),
                width == size.x,
                height == size.y,
                width > 0,
                y <= height,
                src.x + size.x <= 1024 && dst.x + size.x <= 1024 && src.y + size.y <= 512 && dst.y + size.y <= 512,
                0 <= src.x && 0 <= src.y && 0 <= dst.x && 0 <= dst.y,
                self.vram@ == spec_blit(old_v, src, dst, width as int, y as int, 0),
            decreases height - y,
        {
            let mut x: usize = 0;
            while x < width
                invariant
                    self.wf(),
                    width == size.x,
                    height == size.y,
                    width > 0,
                    y < height,
                    x <= width,
                    src.x + size.x <= 1024 && dst.x + size.x <= 1024 && src.y + size.y <= 512 && dst.y + size.y <= 512,
                    0 <= src.x && 0 <= src.y && 0 <= dst.x && 0 <= dst.y,
                    self.vram@ == spec_blit(old_v, src, dst, width as int, y as int, x as int),
                decreases width - x,
            {
                let sa = 2 * ((y + src.y as usize) * 1024 + x + (src.x as usize));
                let pixel_lsb = self.vram[sa];
                let pixel_msb = self.vram[sa + 1];
                let da = 2 * ((y + dst.y as usize) * 1024 + x + (dst.x as usize));
                self.vram.set(da, pixel_lsb);
                self.vram.set(da + 1, pixel_msb);
                x = x + 1;
            }
            assert(spec_blit(old_v, src, dst, width as int, y + 1, 0) == spec_blit(old_v, src, dst, width as int, y as int, width as int));
            y = y + 1;
        }
    }

    /// Plots a line pixel: `c`, blended over the background when `semi`,
    /// then dithered.
    fn plot_line_pixel(&mut self, x: i32, y: i32, c: Colour, semi: bool, mode: u8, ctx: &RenderingContext)
        requires
            old(self).wf(),
            in_vram(x as int, y as int),
            mode < 4,
        ensures
            final(self).wf(),
            final(self).vram@ == spec_set_px(
                old(self).vram@,
                x as int,
                y as int,
                spec_line_bytes(spec_px(old(self).vram@, x as int, y as int), c, x as int, y as int, semi, mode, *ctx),
            ),
    {
        let vram_addr = (2 * (y * 1024 + x)) as usize;
        let mut pixel = c;
        if semi {
            let bg = self.vram_colour(vram_addr);
            pixel.blend_with_background(bg, mode);
        }
        pixel.apply_dithering(x, y);
        self.vram_write_color(vram_addr, pixel, ctx);
        proof {
            let v = old(self).vram@;
            let a = vram_addr as int;
            if spec_masked(v, a, *ctx) {
                assert(v =~= v.update(a, v[a]).update(a + 1, v[a + 1]));
            }
        }
    }
}

/// The clipped end points of a line from `v0` to `v1`, both moved by the
/// drawing offset.
pub open spec fn spec_line_clip(v0: Vertex, v1: Vertex, ctx: RenderingContext) -> Option<(i32, i32, i32, i32)> {
    spec_clip_rect(
        (v0.x + ctx.drawing_x_offset) as i32,
        (v0.y + ctx.drawing_y_offset) as i32,
        (v1.x + ctx.drawing_x_offset) as i32,
        (v1.y + ctx.drawing_y_offset) as i32,
        ctx,
    )
}

/// The end points of a line, moved by the drawing offset, fit in an `i32`
/// with room for their differences.
pub open spec fn spec_line_fits(v0: Vertex, v1: Vertex, ctx: RenderingContext) -> bool {
    &&& spec_coord_ok(Vertex { x: (v0.x + ctx.drawing_x_offset) as i32, y: (v0.y + ctx.drawing_y_offset) as i32 })
    &&& spec_coord_ok(Vertex { x: (v1.x + ctx.drawing_x_offset) as i32, y: (v1.y + ctx.drawing_y_offset) as i32 })
    &&& -16384 < v0.x + ctx.drawing_x_offset < 16384
    &&& -16384 < v0.y + ctx.drawing_y_offset < 16384
    &&& -16384 < v1.x + ctx.drawing_x_offset < 16384
    &&& -16384 < v1.y + ctx.drawing_y_offset < 16384
}

/// Both clipped end points lie in VRAM.
pub open spec fn spec_ends_in_vram(r: Option<(i32, i32, i32, i32)>) -> bool {
    r matches Some(q) ==> q.0 < 1024 && q.2 < 1024 && q.1 < 512 && q.3 < 512
}

/// VRAM after drawing the clipped line `r` with `colour`.
pub open spec fn spec_line_result(
    v: Seq<u8>,
    r: Option<(i32, i32, i32, i32)>,
    colour: spec_fn(int, int) -> Colour,
    semi: bool,
    mode: u8,
    ctx: RenderingContext,
) -> Seq<u8> {
    match r {
        None => v,
        Some(q) => {
            let l = spec_walk(q.0 as int, q.1 as int, q.2 as int, q.3 as int);
            spec_line_from(v, l, q.0 as int, q.1 as int, l.dx + l.dy, colour, semi, mode, ctx)
        },
    }
}

impl Renderer {
    /// Draws a flat line from `v0` to `v1` (moved by the drawing offset and
    /// clipped to the drawing area), dithered; semi-transparent when
    /// `SEMI_TRANS`.
    pub fn draw_line<const SEMI_TRANS: bool>(&mut self, v0: Vertex, v1: Vertex, mono: Colour, ctx: &RenderingContext)
        requires
            old(self).wf(),
            ctx.semi_transparency < 4,
            spec_line_fits(v0, v1, *ctx),
            spec_ends_in_vram(spec_line_clip(v0, v1, *ctx)),
        ensures
            final(self).wf(),
            final(self).vram@ == spec_line_result(
                old(self).vram@,
                spec_line_clip(v0, v1, *ctx),
                |x: int, y: int| mono,
                SEMI_TRANS,
                ctx.semi_transparency,
                *ctx,
            ),
    {
        let ax = v0.x + ctx.drawing_x_offset as i32;
        let ay = v0.y + ctx.drawing_y_offset as i32;
        let bx = v1.x + ctx.drawing_x_offset as i32;
        let by = v1.y + ctx.drawing_y_offset as i32;
        let (x0, y0, x1, y1) = match self.clip_rect(ax, ay, bx, by, ctx) {
            Some(r) => r,
            None => return,
        };
        let ghost colour = |x: int, y: int| mono;
        let ghost l = spec_walk(x0 as int, y0 as int, x1 as int, y1 as int);
        let ghost goal = spec_line_from(self.vram@, l, x0 as int, y0 as int, l.dx + l.dy, colour, SEMI_TRANS, ctx.semi_transparency, *ctx);
        let dx: i32 = if x1 >= x0 { x1 - x0 } else { x0 - x1 };
        let dy: i32 = if y1 >= y0 { y0 - y1 } else { y1 - y0 };
        let sx: i32 = if x0 < x1 { 1 } else { -1 };
        let sy: i32 = if y0 < y1 { 1 } else { -1 };
        let mut err = dx + dy;
        let mut x = x0;
        let mut y = y0;
        loop
            invariant_except_break
                self.wf(),
                0 <= x0 < 1024 && 0 <= x1 < 1024 && 0 <= y0 < 512 && 0 <= y1 < 512,
                ctx.semi_transparency < 4,
                l == spec_walk(x0 as int, y0 as int, x1 as int, y1 as int),
                dx == l.dx && dy == l.dy && sx == l.sx && sy == l.sy,
                spec_walk_ok(l, x as int, y as int, err as int),
                colour == (|x: int, y: int| mono),
                goal == spec_line_from(self.vram@, l, x as int, y as int, err as int, colour, SEMI_TRANS, ctx.semi_transparency, *ctx),
            ensures
                self.wf(),
                self.vram@ == goal,
            decreases spec_dist(x as int, x1 as int) + spec_dist(y as int, y1 as int),
        {
            self.plot_line_pixel(x, y, mono, SEMI_TRANS, ctx.semi_transparency, ctx);
            let e2 = 2 * err;
            if e2 >= dy {
                if x == x1 {
                    break;
                }
                err = err + dy;
                x = x + sx;
            }
            if e2 <= dx {
                if y == y1 {
                    break;
                }
                err = err + dx;
                y = y + sy;
            }
        }
    }
}

/// Integer division rounding toward zero.
pub open spec fn spec_tdiv(a: int, b: int) -> int {
    let q = (if a < 0 { -a } else { a }) / (if b < 0 { -b } else { b });
    if (a < 0) != (b < 0) { -q } else { q }
}

/// One channel of a shaded line pixel: `(a * inv + b * num) / denom`,
/// rounded toward zero, truncated to 8 bits.
pub open spec fn spec_lerp(a: u8, b: u8, inv: int, num: int, denom: int) -> u8 {
    spec_tdiv(a * inv + b * num, denom) as u8
}

/// Colour of a shaded line at `(x, y)`: interpolated between `c0` and `c1`
/// along the longer axis, the mask bit clear.
pub open spec fn spec_line_colour(l: LineWalk, c0: Colour, c1: Colour, x: int, y: int) -> Colour {
    let num = if l.dx >= -l.dy { spec_dist(x, l.x0) } else { spec_dist(y, l.y0) };
    let denom = if l.dx >= -l.dy { l.dx } else { l.dy };
    if denom == 0 {
        c0
    } else {
        let inv = denom - num;
        Colour {
            r: spec_lerp(c0.r, c1.r, inv, num, denom),
            g: spec_lerp(c0.g, c1.g, inv, num, denom),
            b: spec_lerp(c0.b, c1.b, inv, num, denom),
            m: 0,
        }
    }
}

fn lerp_channel(a: u8, b: u8, inv: i32, num: i32, denom: i32) -> (r: u8)
    requires
        -8192 < inv < 8192,
        0 <= num < 4096,
        denom != 0,
        -4096 < denom < 4096,
    ensures
        r == spec_lerp(a, b, inv as int, num as int, denom as int),
{
    assert(-(255 * 8192) <= (a as int) * (inv as int) <= 255 * 8192) by (nonlinear_arith)
        requires
            -8192 < inv < 8192,
            a <= 255,
    ;
    assert(0 <= (b as int) * (num as int) <= 255 * 4096) by (nonlinear_arith)
        requires
            0 <= num < 4096,
            b <= 255,
    ;
    let n: i32 = (a as i32) * inv + (b as i32) * num;
    let an: u32 = if n < 0 { (-n) as u32 } else { n as u32 };
    let ad: u32 = if denom < 0 { (-denom) as u32 } else { denom as u32 };
    let q: u32 = an / ad;
    assert(q <= an);
    let v: i32 = if (n < 0) != (denom < 0) { -(q as i32) } else { q as i32 };
    v as u8
}

impl Renderer {
    /// Draws a Gouraud-shaded line from `v0` (colour `color0`) to `v1`
    /// (colour `color1`), moved by the drawing offset, clipped to the drawing
    /// area and dithered; semi-transparent when `SEMI_TRANS`.
    #[verifier::rlimit(40)]
    #[verifier::spinoff_prover]
    pub fn draw_line_shaded<const SEMI_TRANS: bool>(
        &mut self,
        v0: Vertex,
        v1: Vertex,
        color0: Colour,
        color1: Colour,
        ctx: &RenderingContext,
    )
        requires
            old(self).wf(),
            ctx.semi_transparency < 4,
            spec_line_fits(v0, v1, *ctx),
            spec_ends_in_vram(spec_line_clip(v0, v1, *ctx)),
        ensures
            final(self).wf(),
            final(self).vram@ == spec_line_result(
                old(self).vram@,
                spec_line_clip(v0, v1, *ctx),
                |x: int, y: int| {
                    let q = spec_line_clip(v0, v1, *ctx)->0;
                    spec_line_colour(spec_walk(q.0 as int, q.1 as int, q.2 as int, q.3 as int), color0, color1, x, y)
                },
                SEMI_TRANS,
                ctx.semi_transparency,
                *ctx,
            ),
    {
        let ax = v0.x + ctx.drawing_x_offset as i32;
        let ay = v0.y + ctx.drawing_y_offset as i32;
        let bx = v1.x + ctx.drawing_x_offset as i32;
        let by = v1.y + ctx.drawing_y_offset as i32;
        let (x0, y0, x1, y1) = match self.clip_rect(ax, ay, bx, by, ctx) {
            Some(r) => r,
            None => return,
        };
        let ghost l = spec_walk(x0 as int, y0 as int, x1 as int, y1 as int);
        let ghost colour = |x: int, y: int| {
            let q = spec_line_clip(v0, v1, *ctx)->0;
            spec_line_colour(spec_walk(q.0 as int, q.1 as int, q.2 as int, q.3 as int), color0, color1, x, y)
        };
        let ghost goal = spec_line_from(self.vram@, l, x0 as int, y0 as int, l.dx + l.dy, colour, SEMI_TRANS, ctx.semi_transparency, *ctx);
        let dx: i32 = if x1 >= x0 { x1 - x0 } else { x0 - x1 };
        let dy: i32 = if y1 >= y0 { y0 - y1 } else { y1 - y0 };
        let sx: i32 = if x0 < x1 { 1 } else { -1 };
        let sy: i32 = if y0 < y1 { 1 } else { -1 };
        let mut err = dx + dy;
        let mut x = x0;
        let mut y = y0;
        loop
            invariant_except_break
                self.wf(),
                0 <= x0 < 1024 && 0 <= x1 < 1024 && 0 <= y0 < 512 && 0 <= y1 < 512,
                ctx.semi_transparency < 4,
                l == spec_walk(x0 as int, y0 as int, x1 as int, y1 as int),
                dx == l.dx && dy == l.dy && sx == l.sx && sy == l.sy,
                spec_walk_ok(l, x as int, y as int, err as int),
                forall|px: int, py: int| #[trigger] colour(px, py) == spec_line_colour(l, color0, color1, px, py),
                goal == spec_line_from(self.vram@, l, x as int, y as int, err as int, colour, SEMI_TRANS, ctx.semi_transparency, *ctx),
            ensures
                self.wf(),
                self.vram@ == goal,
            decreases spec_dist(x as int, x1 as int) + spec_dist(y as int, y1 as int),
        {
            let pixel = if dx >= -dy {
                let num = if x >= x0 { x - x0 } else { x0 - x };
                shaded_colour(color0, color1, num, dx)
            } else {
                let num = if y >= y0 { y - y0 } else { y0 - y };
                shaded_colour(color0, color1, num, dy)
            };
            assert(pixel == colour(x as int, y as int));
            self.plot_line_pixel(x, y, pixel, SEMI_TRANS, ctx.semi_transparency, ctx);
            let e2 = 2 * err;
            if e2 >= dy {
                if x == x1 {
                    break;
                }
                err = err + dy;
                x = x + sx;
            }
            if e2 <= dx {
                if y == y1 {
                    break;
                }
                err = err + dx;
                y = y + sy;
            }
        }
    }
}

/// The colour `num` steps of `denom` along a line from `c0` to `c1`.
fn shaded_colour(c0: Colour, c1: Colour, num: i32, denom: i32) -> (r: Colour)
    requires
        0 <= num < 4096,
        -4096 < denom < 4096,
    ensures
        r == (if denom == 0 {
            c0
        } else {
            Colour {
                r: spec_lerp(c0.r, c1.r, denom - num, num as int, denom as int),
                g: spec_lerp(c0.g, c1.g, denom - num, num as int, denom as int),
                b: spec_lerp(c0.b, c1.b, denom - num, num as int, denom as int),
                m: 0,
            }
        }),
{
    if denom == 0 {
        c0
    } else {
        let inv = denom - num;
        Colour {
            r: lerp_channel(c0.r, c1.r, inv, num, denom),
            g: lerp_channel(c0.g, c1.g, inv, num, denom),
            b: lerp_channel(c0.b, c1.b, inv, num, denom),
            m: 0,
        }
    }
}

/// What is left of a row-by-row scan of the `w` x `h` block at `(x0, y0)`,
/// from its pixel `(x, y)` on: each pixel's update `f` applied in turn to
/// VRAM `v`; `None` when an update cannot be made.
pub open spec fn spec_scan_rest(
    v: Seq<u8>,
    f: spec_fn(Seq<u8>, int, int) -> Option<Seq<u8>>,
    x0: int,
    y0: int,
    w: int,
    h: int,
    y: int,
    x: int,
) -> Option<Seq<u8>>
    decreases h - y, w - x,
{
    if y >= h || w <= 0 || x < 0 {
        Some(v)
    } else if x >= w {
        spec_scan_rest(v, f, x0, y0, w, h, y + 1, 0)
    } else {
        match f(v, x0 + x, y0 + y) {
            None => None,
            Some(v2) => spec_scan_rest(v2, f, x0, y0, w, h, y, x + 1),
        }
    }
}

/// `c` modulated by `by`, channel by channel.
pub open spec fn spec_modulated(c: Colour, by: Colour) -> Colour {
    Colour { r: spec_modulate(c.r, by.r), g: spec_modulate(c.g, by.g), b: spec_modulate(c.b, by.b), m: c.m }
}

/// The texture page that a textured rectangle uses: the page of `ctx`.
pub open spec fn spec_ctx_texture(ctx: RenderingContext, clut: u16) -> Texture {
    Texture {
        base_x: (ctx.page_base_x as usize * 64) as usize,
        base_y: (ctx.page_base_y as usize * 256) as usize,
        semi_transparency: ctx.semi_transparency,
        depth: ctx.texture_depth,
        clut: Clut { base_x: ((clut & 0x3f) * 16) as usize, base_y: ((clut >> 6) & 0x1ff) as usize },
        dithering: ctx.dithering,
        draw_to_display: ctx.draw_to_display,
    }
}

/// One pixel `(x, y)` of a textured rectangle whose top left (after the
/// drawing offset) is `(vx, vy)` and maps to texel `uv`: the texel, skipped
/// when fully black, modulated by `color` when `blend`, blended over the
/// background when `semi` and its mask bit is set. `None` when the texel
/// lies outside VRAM.
pub open spec fn spec_tex_rect_px(
    v: Seq<u8>,
    x: int,
    y: int,
    t: Texture,
    vx: int,
    vy: int,
    uv: (u16, u16),
    color: Colour,
    semi: bool,
    blend: bool,
    ctx: RenderingContext,
) -> Option<Seq<u8>> {
    let ux = (uv.0 + x - vx) as i32 as usize;
    let uy = (uv.1 + y - vy) as i32 as usize;
    if !spec_texel_ok(t, v, ux, uy, ctx) {
        None
    } else {
        let b = spec_texel_bytes(t, v, ux, uy, ctx);
        let tc = spec_colour_from_pixel(spec_halfword(b.0, b.1));
        if tc.r == 0 && tc.g == 0 && tc.b == 0 && tc.m == 0 {
            Some(v)
        } else {
            let c1 = if blend { spec_modulated(tc, color) } else { tc };
            let c2 = spec_shade(c1, spec_vram_colour(v, spec_addr(x, y)), semi && c1.m == 1, ctx.semi_transparency);
            Some(spec_write(v, spec_addr(x, y), c2, ctx))
        }
    }
}

impl Renderer {
    /// Draws a textured rectangle at `v` (moved by the drawing offset) of
    /// size `side`, clipped to the drawing area, with texel `uv` at its top
    /// left, from the texture page of `ctx` and CLUT `clut`; texels modulated
    /// by `color` when `BLEND`, semi-transparent when `SEMI_TRANS`. Returns
    /// `false`, and stops, at the first texel that lies outside VRAM.
    pub fn draw_rectangle_textured<const SEMI_TRANS: bool, const BLEND: bool>(
        &mut self,
        v: Vertex,
        side: Vertex,
        color: Colour,
        clut: u16,
        uv: [u16; 2],
        ctx: &RenderingContext,
    ) -> (r: bool)
        requires
            old(self).wf(),
            ctx.semi_transparency < 4,
            spec_rect_fits(v, side, *ctx),
            spec_clip_in_vram(spec_rect_clip(v, side, *ctx)),
        ensures
            final(self).wf(),
            spec_rect_clip(v, side, *ctx) is None ==> r && final(self).vram@ == old(self).vram@,
            spec_rect_clip(v, side, *ctx) matches Some(q) ==> {
                let res = spec_scan_rest(
                    old(self).vram@,
                    |vv: Seq<u8>, x: int, y: int| spec_tex_rect_px(vv, x, y, spec_ctx_texture(*ctx, clut),
                        spec_rect_corners(v, side, *ctx).0, spec_rect_corners(v, side, *ctx).1, (uv[0], uv[1]),
                        color, SEMI_TRANS, BLEND, *ctx),
                    q.0 as int,
                    q.1 as int,
                    q.2 - q.0 + 1,
                    q.3 - q.1 + 1,
                    0,
                    0,
                );
                &&& r == res is Some
                &&& r ==> res == Some(final(self).vram@)
            },
    {
        let vx = v.x + ctx.drawing_x_offset as i32;
        let vy = v.y + ctx.drawing_y_offset as i32;
        let (min_x, min_y, max_x, max_y) = match self.clip_rect(vx, vy, vx + side.x - 1, vy + side.y - 1, ctx) {
            Some(r) => r,
            None => return true,
        };
        let ghost f = |vv: Seq<u8>, x: int, y: int| spec_tex_rect_px(vv, x, y, spec_ctx_texture(*ctx, clut),
            spec_rect_corners(v, side, *ctx).0, spec_rect_corners(v, side, *ctx).1, (uv[0], uv[1]),
            color, SEMI_TRANS, BLEND, *ctx);
        let ghost w = max_x - min_x + 1;
        let ghost h = max_y - min_y + 1;
        let ghost goal = spec_scan_rest(self.vram@, f, min_x as int, min_y as int, w, h, 0, 0);
        if min_x > max_x || min_y > max_y {
            return true;
        }
        let table = Clut::new(clut);
        let texture = Texture {
            base_x: (ctx.page_base_x as usize) * 64,
            base_y: (ctx.page_base_y as usize) * 256,
            semi_transparency: ctx.semi_transparency,
            depth: ctx.texture_depth,
            clut: table,
            dithering: ctx.dithering,
            draw_to_display: ctx.draw_to_display,
        };
        assert(texture == spec_ctx_texture(*ctx, clut));
        let mut y = min_y;
        while y <= max_y
            invariant
                self.wf(),
                0 <= min_x <= max_x < 1024,
                0 <= min_y <= y <= max_y + 1,
                max_y < 512,
                w == max_x - min_x + 1,
                h == max_y - min_y + 1,
                ctx.semi_transparency < 4,
                texture == spec_ctx_texture(*ctx, clut),
                vx == spec_rect_corners(v, side, *ctx).0,
                vy == spec_rect_corners(v, side, *ctx).1,
                vx <= min_x && max_x <= vx + 1023 && vy <= min_y && max_y <= vy + 511,
                spec_rect_clip(v, side, *ctx) == Some((min_x, min_y, max_x, max_y)),
                goal == spec_scan_rest(old(self).vram@, f, min_x as int, min_y as int, w, h, 0, 0),
                f == (|vv: Seq<u8>, x: int, y: int| spec_tex_rect_px(vv, x, y, spec_ctx_texture(*ctx, clut),
                    spec_rect_corners(v, side, *ctx).0, spec_rect_corners(v, side, *ctx).1, (uv[0], uv[1]),
                    color, SEMI_TRANS, BLEND, *ctx)),
                goal == spec_scan_rest(self.vram@, f, min_x as int, min_y as int, w, h, y - min_y, 0),
            decreases max_y + 1 - y,
        {
            let mut x = min_x;
            while x <= max_x
                invariant
                    self.wf(),
                    0 <= min_x <= x <= max_x + 1,
                    max_x < 1024,
                    0 <= min_y <= y <= max_y,
                    max_y < 512,
                    w == max_x - min_x + 1,
                    h == max_y - min_y + 1,
                    ctx.semi_transparency < 4,
                    texture == spec_ctx_texture(*ctx, clut),
                    vx == spec_rect_corners(v, side, *ctx).0,
                    vy == spec_rect_corners(v, side, *ctx).1,
                    vx <= min_x && max_x <= vx + 1023 && vy <= min_y && max_y <= vy + 511,
                    spec_rect_clip(v, side, *ctx) == Some((min_x, min_y, max_x, max_y)),
                    goal == spec_scan_rest(old(self).vram@, f, min_x as int, min_y as int, w, h, 0, 0),
                    f == (|vv: Seq<u8>, x: int, y: int| spec_tex_rect_px(vv, x, y, spec_ctx_texture(*ctx, clut),
                        spec_rect_corners(v, side, *ctx).0, spec_rect_corners(v, side, *ctx).1, (uv[0], uv[1]),
                        color, SEMI_TRANS, BLEND, *ctx)),
                    goal == spec_scan_rest(self.vram@, f, min_x as int, min_y as int, w, h, y - min_y, x - min_x),
                decreases max_x + 1 - x,
            {
                let ghost cur = self.vram@;
                let uv_x = (uv[0] as i32) + (x - vx);
                let uv_y = (uv[1] as i32) + (y - vy);
                if !self.texel_in_vram(&texture, uv_x as usize, uv_y as usize, ctx) {
                    assert(f(cur, x as int, y as int) is None);
                    assert(spec_scan_rest(cur, f, min_x as int, min_y as int, w, h, y - min_y, x - min_x) is None);
                    return false;
                }
                let mut pixel = texture.get_texel(self, uv_x as usize, uv_y as usize, ctx);
                if !pixel.is_black() {
                    if BLEND {
                        pixel.blend(color);
                    }
                    let vram_addr = (2 * (y * 1024 + x)) as usize;
                    if SEMI_TRANS && pixel.m == 1 {
                        let background = self.vram_colour(vram_addr);
                        pixel.blend_with_background(background, ctx.semi_transparency);
                    }
                    self.vram_write_color(vram_addr, pixel, ctx);
                }
                assert(f(cur, x as int, y as int) == Some(self.vram@));
                x = x + 1;
            }
            y = y + 1;
        }
        true
    }

    /// Whether reading the texel at `(ux, uy)` of `t` stays inside VRAM.
    pub fn texel_in_vram(&self, t: &Texture, ux: usize, uy: usize, ctx: &RenderingContext) -> (r: bool)
        requires
            self.wf(),
        ensures
            r == spec_texel_ok(*t, self.vram@, ux, uy, *ctx),
    {
        let o = self.compute_texel_offset(ux, uy, ctx);
        let ox = o[0] as u128;
        let oy = o[1] as u128;
        let bx = t.base_x as u128;
        let by = t.base_y as u128;
        let cx = t.clut.base_x as u128;
        let cy = t.clut.base_y as u128;
        let len = VRAM_BYTES as u128;
        match t.depth {
            TextureDepth::T4Bit => {
                let a = by * 2048 + oy * 2048 + 2 * bx + ox / 2;
                if a >= len {
                    return false;
                }
                let b = self.vram[a as usize];
                let n: u8 = if o[0] & 1 == 1 {
                    (b >> 4u8) & 0xF
                } else {
                    b & 0xF
                };
                2 * (cy * 1024 + cx + n as u128) + 1 < len
            },
            TextureDepth::T8Bit => {
                let a = by * 2048 + oy * 2048 + 2 * bx + ox;
                if a >= len {
                    return false;
                }
                let n = self.vram[a as usize];
                2 * (cy * 1024 + cx + n as u128) + 1 < len
            },
            TextureDepth::T15Bit => 2 * ((by + oy) * 1024 + bx + ox) + 1 < len,
        }
    }
}

/// Where the pixels of a produced frame come from.
#[derive(Clone, Copy)]
pub enum FbSource {
    /// Opaque black.
    Black,
    /// 15-bit pixels of VRAM, from pixel `(sx, sy)` on.
    Bits15 { sx: usize, sy: usize },
    /// 24-bit pixels of VRAM (three bytes each), from pixel `(sx, sy)` on.
    Bits24 { sx: usize, sy: usize },
}

/// The opaque black output pixel.
pub open spec fn spec_black() -> Color {
    Color { r: 0, g: 0, b: 0, a: 255 }
}

/// Output pixel `(x, y)` of a frame taken from `src`.
pub open spec fn spec_fb_colour(v: Seq<u8>, src: FbSource, x: int, y: int) -> Color {
    match src {
        FbSource::Black => spec_black(),
        FbSource::Bits15 { sx, sy } => {
            let a = 2 * (1024 * (sy + y) + (sx + x));
            let p = spec_halfword(v[a], v[a + 1]);
            Color {
                r: spec_5bit_to_8bit(p & 0x1f),
                g: spec_5bit_to_8bit((p >> 5) & 0x1f),
                b: spec_5bit_to_8bit((p >> 10) & 0x1f),
                a: 255,
            }
        },
        FbSource::Bits24 { sx, sy } => {
            let a = 2 * (1024 * (y + sy)) + 3 * sx + 3 * x;
            Color { r: v[a], g: v[a + 1], b: v[a + 2], a: 255 }
        },
    }
}

/// Whether every read for a `w` x `h` frame from `src` lies in VRAM.
pub open spec fn spec_fb_src_ok(src: FbSource, w: int, h: int) -> bool {
    match src {
        FbSource::Black => true,
        FbSource::Bits15 { sx, sy } => w == 0 || h == 0 || 2 * (1024 * (sy + h - 1) + (sx + w - 1)) + 1 < VRAM_BYTES,
        FbSource::Bits24 { sx, sy } => w == 0 || h == 0 || 2 * (1024 * (h - 1 + sy)) + 3 * sx + 3 * (w - 1) + 2 < VRAM_BYTES,
    }
}

/// Whether framebuffer index `i` is pixel `(i % 1024, i / 1024)` of a
/// `w` x `h` frame.
pub open spec fn spec_fb_region(i: int, w: int, h: int) -> bool {
    i % 1024 < w && i / 1024 < h
}

/// Source and size of the frame that `render_fb` produces.
pub open spec fn spec_fb_frame(full_ram: bool, ctx: RenderingContext) -> (FbSource, usize, usize) {
    if ctx.display_disabled {
        (FbSource::Black, 16, 16)
    } else if full_ram {
        (FbSource::Bits15 { sx: 0, sy: 0 }, 1024, 512)
    } else {
        let sx = ctx.display_vram_x_start as usize;
        let sy = ctx.display_vram_y_start as usize;
        let src = match ctx.display_depth {
            DisplayDepth::D15Bits => FbSource::Bits15 { sx, sy },
            DisplayDepth::D24Bits => FbSource::Bits24 { sx, sy },
        };
        (src, ctx.hres.spec_pixels(), ctx.vres.spec_pixels())
    }
}

/// Index from which the displayed frame is blacked out, if it is: the
/// lines past the display range, when the frame is at least that tall.
pub open spec fn spec_fb_blackout(full_ram: bool, ctx: RenderingContext) -> Option<int> {
    let vrange = ctx.display_line_end - ctx.display_line_start;
    if ctx.display_disabled || full_ram {
        None
    } else if ctx.vres.spec_pixels() >= vrange {
        Some(vrange * 1024 * (if ctx.interlaced { 2int } else { 1int }))
    } else {
        None
    }
}

/// Output pixel `i` after `render_fb`, given its old value `o`.
pub open spec fn spec_fb_after(o: Color, v: Seq<u8>, full_ram: bool, ctx: RenderingContext, i: int) -> Color {
    let f = spec_fb_frame(full_ram, ctx);
    if spec_fb_blackout(full_ram, ctx) matches Some(start) && i >= start {
        spec_black()
    } else if spec_fb_region(i, f.1 as int, f.2 as int) {
        spec_fb_colour(v, f.0, i % 1024, i / 1024)
    } else {
        o
    }
}

/// `render_fb` reads only inside VRAM and writes only inside the frame
/// buffer.
pub open spec fn spec_fb_ok(fb_len: int, full_ram: bool, ctx: RenderingContext) -> bool {
    let f = spec_fb_frame(full_ram, ctx);
    &&& fb_len >= 1024 * 512
    &&& (!ctx.display_disabled && !full_ram) ==> {
        &&& ctx.hres.wf()
        &&& ctx.display_line_end >= ctx.display_line_start
        &&& spec_fb_src_ok(f.0, f.1 as int, f.2 as int)
        &&& spec_fb_blackout(full_ram, ctx) matches Some(start) ==> start <= fb_len
    }
}

impl Renderer {
    /// Output pixel `(x, y)` of a frame taken from `src`.
    fn fb_colour(&self, src: FbSource, x: usize, y: usize, Ghost(w): Ghost<int>, Ghost(h): Ghost<int>) -> (r: Color)
        requires
            self.wf(),
            x < w,
            y < h,
            w <= 1024,
            h <= 512,
            spec_fb_src_ok(src, w, h),
        ensures
            r == spec_fb_colour(self.vram@, src, x as int, y as int),
    {
        match src {
            FbSource::Black => Color { r: 0, g: 0, b: 0, a: 255 },
            FbSource::Bits15 { sx, sy } => {
                assert(2 * (1024 * (sy + y) + (sx + x)) + 1 < VRAM_BYTES) by (nonlinear_arith)
                    requires
                        x < w,
                        y < h,
                        2 * (1024 * (sy + h - 1) + (sx + w - 1)) + 1 < VRAM_BYTES,
                ;
                let a = 2 * (1024 * (sy + y) + (sx + x));
                let c = Colour::from_bytes(self.vram[a + 1], self.vram[a]);
                let p: u16 = ((self.vram[a + 1] as u16) << 8) | (self.vram[a] as u16);
                proof {
                    crate::bitfacts::lemma_and_le_u16(p, 0x1f);
                    crate::bitfacts::lemma_and_le_u16(p >> 5, 0x1f);
                    crate::bitfacts::lemma_and_le_u16(p >> 10, 0x1f);
                }
                let r = convert_5bit_to_8bit(p & 0x1F);
                let g = convert_5bit_to_8bit((p >> 5) & 0x1F);
                let b = convert_5bit_to_8bit((p >> 10) & 0x1F);
                Color { r, g, b, a: 255 }
            },
            FbSource::Bits24 { sx, sy } => {
                assert(2 * (1024 * (y + sy)) + 3 * sx + 3 * x + 2 < VRAM_BYTES) by (nonlinear_arith)
                    requires
                        x < w,
                        y < h,
                        2 * (1024 * (h - 1 + sy)) + 3 * sx + 3 * (w - 1) + 2 < VRAM_BYTES,
                ;
                let a = 2 * (1024 * (y + sy)) + 3 * sx + 3 * x;
                Color { r: self.vram[a], g: self.vram[a + 1], b: self.vram[a + 2], a: 255 }
            },
        }
    }

    /// Writes the `w` x `h` frame from `src` to the top left of `fb` (1024
    /// pixels per row).
    fn fill_fb(&self, fb: &mut Vec<Color>, src: FbSource, w: usize, h: usize)
        requires
            self.wf(),
            w <= 1024,
            h <= 512,
            old(fb)@.len() >= 1024 * 512,
            spec_fb_src_ok(src, w as int, h as int),
        ensures
            final(fb)@.len() == old(fb)@.len(),
            forall|i: int| 0 <= i < old(fb)@.len() ==> #[trigger] final(fb)@[i] == if spec_fb_region(i, w as int, h as int) {
                spec_fb_colour(self.vram@, src, i % 1024, i / 1024)
            } else {
                old(fb)@[i]
            },
    {
        let ghost old_fb = fb@;
        let mut y: usize = 0;
        while y < h
            invariant
                self.wf(),
                w <= 1024,
                h <= 512,
                y <= h,
                old_fb.len() >= 1024 * 512,
                fb@.len() == old_fb.len(),
                spec_fb_src_ok(src, w as int, h as int),
                forall|i: int| 0 <= i < old_fb.len() ==> #[trigger] fb@[i] == if spec_fb_region(i, w as int, y as int) {
                    spec_fb_colour(self.vram@, src, i % 1024, i / 1024)
                } else {
                    old_fb[i]
                },
            decreases h - y,
        {
            let mut x: usize = 0;
            while x < w
                invariant
                    self.wf(),
                    w <= 1024,
                    h <= 512,
                    y < h,
                    x <= w,
                    old_fb.len() >= 1024 * 512,
                    fb@.len() == old_fb.len(),
                    spec_fb_src_ok(src, w as int, h as int),
                    forall|i: int| 0 <= i < old_fb.len() ==> #[trigger] fb@[i] == if spec_fb_region(i, w as int, y as int)
                        || (i / 1024 == y && i % 1024 < x) {
                        spec_fb_colour(self.vram@, src, i % 1024, i / 1024)
                    } else {
                        old_fb[i]
                    },
                decreases w - x,
            {
                let c = self.fb_colour(src, x, y, Ghost(w as int), Ghost(h as int));
                proof {
                    vstd::arithmetic::div_mod::lemma_fundamental_div_mod_converse((1024 * y + x) as int, 1024, y as int, x as int);
                }
                fb.set(1024 * y + x, c);
                proof {
                    assert forall|i: int| 0 <= i < old_fb.len() implies #[trigger] fb@[i] == if spec_fb_region(i, w as int, y as int)
                        || (i / 1024 == y && i % 1024 < x + 1) {
                        spec_fb_colour(self.vram@, src, i % 1024, i / 1024)
                    } else {
                        old_fb[i]
                    } by {
                        if i != 1024 * y + x {
                            vstd::arithmetic::div_mod::lemma_fundamental_div_mod(i, 1024);
                            vstd::arithmetic::div_mod::lemma_mod_pos_bound(i, 1024);
                        }
                    }
                }
                x = x + 1;
            }
            proof {
                assert forall|i: int| 0 <= i < old_fb.len() implies #[trigger] fb@[i] == if spec_fb_region(i, w as int, y + 1) {
                    spec_fb_colour(self.vram@, src, i % 1024, i / 1024)
                } else {
                    old_fb[i]
                } by {
                    vstd::arithmetic::div_mod::lemma_mod_pos_bound(i, 1024);
                }
            }
            y = y + 1;
        }
    }

    /// Produces the displayed frame (or, with `full_ram`, all of VRAM; or a
    /// black 16 x 16 frame while the display is off) into `framebuffer`, 1024
    /// pixels per row, and returns its width and height.
    pub fn render_fb(&self, framebuffer: &mut Vec<Color>, full_ram: bool, ctx: &RenderingContext) -> (r: (usize, usize))
        requires
            self.wf(),
            spec_fb_ok(old(framebuffer)@.len() as int, full_ram, *ctx),
        ensures
            r.0 == spec_fb_frame(full_ram, *ctx).1,
            r.1 == spec_fb_frame(full_ram, *ctx).2,
            final(framebuffer)@.len() == old(framebuffer)@.len(),
            forall|i: int| 0 <= i < old(framebuffer)@.len() ==> #[trigger] final(framebuffer)@[i] == spec_fb_after(
                old(framebuffer)@[i],
                self.vram@,
                full_ram,
                *ctx,
                i,
            ),
    {
        if ctx.display_disabled {
            self.fill_fb(framebuffer, FbSource::Black, 16, 16);
            return (16, 16);
        }
        if full_ram {
            self.fill_fb(framebuffer, FbSource::Bits15 { sx: 0, sy: 0 }, 1024, 512);
            return (1024, 512);
        }
        let sx = ctx.display_vram_x_start as usize;
        let sy = ctx.display_vram_y_start as usize;
        let width = ctx.hres.into_pixels();
        let height = ctx.vres.into_pixels();
        let src = match ctx.display_depth {
            DisplayDepth::D15Bits => FbSource::Bits15 { sx, sy },
            DisplayDepth::D24Bits => FbSource::Bits24 { sx, sy },
        };
        self.fill_fb(framebuffer, src, width, height);
        let vrange = (ctx.display_line_end - ctx.display_line_start) as usize;
        if height >= vrange {
            let starting_row = vrange * 1024 * if ctx.interlaced { 2 } else { 1 };
            let ghost mid = framebuffer@;
            let mut i = starting_row;
            while i < framebuffer.len()
                invariant
                    starting_row <= i <= framebuffer@.len(),
                    framebuffer@.len() == mid.len(),
                    forall|j: int| 0 <= j < mid.len() ==> #[trigger] framebuffer@[j] == if starting_row <= j < i {
                        spec_black()
                    } else {
                        mid[j]
                    },
                decreases framebuffer@.len() - i,
            {
                framebuffer.set(i, Color { r: 0, g: 0, b: 0, a: 255 });
                i = i + 1;
            }
        }
        (width, height)
    }
}

/// What handling a request came to.
pub enum Processed {
    /// Drawn, or copied into VRAM.
    Done,
    /// Answered.
    Respond(RendererResponse),
    /// A shaded or textured triangle: its rasterisation interpolates in
    /// floating point, which the caller does.
    Deferred(RendererMsg),
    /// The request would read or write outside VRAM or the frame buffer, or
    /// overflow; nothing was done.
    Rejected,
}

/// The arguments of a line draw are within the machine's limits.
pub open spec fn spec_line_args_ok(v0: Vertex, v1: Vertex, ctx: RenderingContext) -> bool {
    ctx.semi_transparency < 4 && spec_line_fits(v0, v1, ctx) && spec_ends_in_vram(spec_line_clip(v0, v1, ctx))
}

/// The arguments of a rectangle draw are within the machine's limits.
pub open spec fn spec_rect_args_ok(v: Vertex, side: Vertex, ctx: RenderingContext) -> bool {
    ctx.semi_transparency < 4 && spec_rect_fits(v, side, ctx) && spec_clip_in_vram(spec_rect_clip(v, side, ctx))
}

/// The arguments of a flat triangle draw are within the machine's limits.
pub open spec fn spec_tri_args_ok(vs: Seq<Vertex>, ctx: RenderingContext) -> bool {
    &&& ctx.semi_transparency < 4
    &&& spec_coord_ok(vs[0]) && spec_coord_ok(vs[1]) && spec_coord_ok(vs[2])
    &&& spec_tri_clip(vs, ctx) matches Some(q) ==> q.2 <= 1024 && q.3 <= 512
}

/// The arguments of a fill are within the machine's limits.
pub open spec fn spec_fill_args_ok(v: Vertex, side: Vertex) -> bool {
    i32::MIN <= v.x + side.x <= i32::MAX && i32::MIN <= v.y + side.y <= i32::MAX
}

/// A block copy stays inside VRAM.
pub open spec fn spec_blit_args_ok(src: Vertex, dst: Vertex, size: Vertex) -> bool {
    &&& 0 <= size.x && 0 <= size.y && 0 <= src.x && 0 <= src.y && 0 <= dst.x && 0 <= dst.y
    &&& size.y == 0 || size.x == 0 || (src.x + size.x <= 1024 && dst.x + size.x <= 1024 && src.y + size.y <= 512
        && dst.y + size.y <= 512)
}

/// A transfer into VRAM of `n` words stays within 16-bit positions.
pub open spec fn spec_copy_in_ok(top_left: (u16, u16), size: (u16, u16), n: int) -> bool {
    size.0 > 0 && top_left.0 + size.0 <= 0xffff && top_left.1 + (2 * n) / (size.0 as int) <= 0xffff
}

/// A read back from VRAM is not empty and stays within 16-bit positions.
pub open spec fn spec_readback_ok(top_left: (u16, u16), size: (u16, u16)) -> bool {
    size.0 > 0 && size.1 > 0 && top_left.0 + size.0 <= 0xffff && top_left.1 + size.1 + 1 <= 0xffff
}

/// What handling `msg` does: VRAM `v` becomes `nv`, the frame buffer `fb`
/// becomes `nfb`, and the outcome is `r`.
pub open spec fn spec_processed(
    v: Seq<u8>,
    nv: Seq<u8>,
    fb: Seq<Color>,
    nfb: Seq<Color>,
    msg: RendererMsg,
    r: Processed,
) -> bool {
    match msg {
        RendererMsg::DrawLine { v0, v1, c0, semi_transparent, ctx } => nfb == fb && if spec_line_args_ok(v0, v1, ctx) {
            r is Done && nv == spec_line_result(v, spec_line_clip(v0, v1, ctx), |x: int, y: int| c0,
                semi_transparent, ctx.semi_transparency, ctx)
        } else {
            r is Rejected && nv == v
        },
        RendererMsg::DrawLineShaded { v0, v1, c0, c1, semi_transparent, ctx } => nfb == fb && if spec_line_args_ok(v0, v1, ctx) {
            r is Done && nv == spec_line_result(v, spec_line_clip(v0, v1, ctx), |x: int, y: int| {
                let q = spec_line_clip(v0, v1, ctx)->0;
                spec_line_colour(spec_walk(q.0 as int, q.1 as int, q.2 as int, q.3 as int), c0, c1, x, y)
            }, semi_transparent, ctx.semi_transparency, ctx)
        } else {
            r is Rejected && nv == v
        },
        RendererMsg::DrawRectangle { v: p, side, c, semi_transparent, ctx } => nfb == fb && if spec_rect_args_ok(p, side, ctx) {
            r is Done && spec_painted(v, nv, |x: int, y: int| spec_in_clip(spec_rect_clip(p, side, ctx), x, y),
                |q: (u8, u8)| spec_plot_bytes(q, c, semi_transparent, ctx.semi_transparency, ctx))
        } else {
            r is Rejected && nv == v
        },
        RendererMsg::DrawRectangleTextured { v: p, side, c, clut, _u, _v, semi_transparent, blend, ctx } => nfb == fb
            && if spec_rect_args_ok(p, side, ctx) {
            match spec_rect_clip(p, side, ctx) {
                None => r is Done && nv == v,
                Some(q) => {
                    let res = spec_scan_rest(
                        v,
                        |vv: Seq<u8>, x: int, y: int| spec_tex_rect_px(vv, x, y, spec_ctx_texture(ctx, clut),
                            spec_rect_corners(p, side, ctx).0, spec_rect_corners(p, side, ctx).1, (_u, _v),
                            c, semi_transparent, blend, ctx),
                        q.0 as int,
                        q.1 as int,
                        q.2 - q.0 + 1,
                        q.3 - q.1 + 1,
                        0,
                        0,
                    );
                    (r is Done <==> res is Some) && (res is Some ==> res == Some(nv)) && (r is Done || r is Rejected)
                },
            }
        } else {
            r is Rejected && nv == v
        },
        RendererMsg::DrawTriangleMono { c, v0, v1, v2, semi_transparent, ctx } => nfb == fb
            && if spec_tri_args_ok(seq![v0, v1, v2], ctx) {
            r is Done && spec_painted(v, nv, |x: int, y: int| spec_tri_covers(seq![v0, v1, v2], ctx, x, y),
                |q: (u8, u8)| spec_plot_bytes(q, c, semi_transparent, ctx.semi_transparency, ctx))
        } else {
            r is Rejected && nv == v
        },
        RendererMsg::DrawTriangleShaded { .. } => nfb == fb && nv == v && r == Processed::Deferred(msg),
        RendererMsg::DrawTriangleTextured { .. } => nfb == fb && nv == v && r == Processed::Deferred(msg),
        RendererMsg::DrawTriangleTexturedShaded { .. } => nfb == fb && nv == v && r == Processed::Deferred(msg),
        RendererMsg::FillRect { v: p, side, c, ctx } => nfb == fb && if spec_fill_args_ok(p, side) {
            r is Done && spec_painted(v, nv, |x: int, y: int| spec_fill_covers(p, side, x, y), |q: (u8, u8)| spec_fill_bytes(c))
        } else {
            r is Rejected && nv == v
        },
        RendererMsg::Vram2VramBlit { src, dst, size } => nfb == fb && if spec_blit_args_ok(src, dst, size) {
            r is Done && nv == spec_blit(v, src, dst, size.x as int, size.y as int, 0)
        } else {
            r is Rejected && nv == v
        },
        RendererMsg::RenderFB { full_ram, ctx } => nv == v && if spec_fb_ok(fb.len() as int, full_ram, ctx) {
            &&& r == Processed::Respond(RendererResponse::FBUpdated {
                width: spec_fb_frame(full_ram, ctx).1,
                height: spec_fb_frame(full_ram, ctx).2,
            })
            &&& nfb.len() == fb.len()
            &&& forall|i: int| 0 <= i < fb.len() ==> #[trigger] nfb[i] == spec_fb_after(fb[i], v, full_ram, ctx, i)
        } else {
            r is Rejected && nfb == fb
        },
        RendererMsg::CpuToVramCopy { top_left, size, data } => nfb == fb && if spec_copy_in_ok(top_left, size, data@.len() as int) {
            r is Done && nv == spec_copy_in(v, top_left, size.0, data@, (2 * data@.len()) as nat)
        } else {
            r is Rejected && nv == v
        },
        RendererMsg::VramToCpuCopy { top_left, size } => nfb == fb && nv == v && if spec_readback_ok(top_left, size) {
            r matches Processed::Respond(RendererResponse::VramToCpuData { data }) && data@.len() == (size.0 * size.1 + 1) / 2
                && forall|j: int| 0 <= j < data@.len() ==> data@[j] == spec_readback_word(v, top_left, size.0, j)
        } else {
            r is Rejected
        },
    }
}

fn in_range(a: i64) -> (r: bool)
    ensures
        r == (-16384 < a < 16384),
{
    -16384 < a && a < 16384
}

impl Renderer {
    fn line_args_ok(&self, v0: Vertex, v1: Vertex, ctx: &RenderingContext) -> (r: bool)
        ensures
            r == spec_line_args_ok(v0, v1, *ctx),
    {
        let ax = v0.x as i64 + ctx.drawing_x_offset as i64;
        let ay = v0.y as i64 + ctx.drawing_y_offset as i64;
        let bx = v1.x as i64 + ctx.drawing_x_offset as i64;
        let by = v1.y as i64 + ctx.drawing_y_offset as i64;
        if ctx.semi_transparency >= 4 || !in_range(ax) || !in_range(ay) || !in_range(bx) || !in_range(by) {
            return false;
        }
        match self.clip_rect(ax as i32, ay as i32, bx as i32, by as i32, ctx) {
            None => true,
            Some(q) => q.0 < 1024 && q.2 < 1024 && q.1 < 512 && q.3 < 512,
        }
    }

    fn rect_args_ok(&self, v: Vertex, side: Vertex, ctx: &RenderingContext) -> (r: bool)
        ensures
            r == spec_rect_args_ok(v, side, *ctx),
    {
        let x0 = v.x as i64 + ctx.drawing_x_offset as i64;
        let y0 = v.y as i64 + ctx.drawing_y_offset as i64;
        let x1 = x0 + side.x as i64 - 1;
        let y1 = y0 + side.y as i64 - 1;
        let lo = i32::MIN as i64;
        let hi = i32::MAX as i64;
        if ctx.semi_transparency >= 4 {
            return false;
        }
        if !(lo <= x0 && x0 <= hi && lo <= y0 && y0 <= hi && lo <= x1 && x1 <= hi && lo <= y1 && y1 <= hi
            && lo <= x1 + 1 && x1 + 1 <= hi && lo <= y1 + 1 && y1 + 1 <= hi && lo <= x1 - x0 && x1 - x0 <= hi
            && lo <= y1 - y0 && y1 - y0 <= hi) {
            return false;
        }
        match self.clip_rect(x0 as i32, y0 as i32, x1 as i32, y1 as i32, ctx) {
            None => true,
            Some(q) => q.2 < 1024 && q.3 < 512,
        }
    }

    fn tri_args_ok(&self, v0: Vertex, v1: Vertex, v2: Vertex, ctx: &RenderingContext) -> (r: bool)
        ensures
            r == spec_tri_args_ok(seq![v0, v1, v2], *ctx),
    {
        let ghost vs = seq![v0, v1, v2];
        if ctx.semi_transparency >= 4 {
            return false;
        }
        if !(in_range(v0.x as i64) && in_range(v0.y as i64) && in_range(v1.x as i64) && in_range(v1.y as i64)
            && in_range(v2.x as i64) && in_range(v2.y as i64)) {
            return false;
        }
        assert(vs[0] == v0 && vs[1] == v1 && vs[2] == v2);
        let bx0 = min3(v0.x, v1.x, v2.x);
        let bx1 = max3(v0.x, v1.x, v2.x);
        let by0 = min3(v0.y, v1.y, v2.y);
        let by1 = max3(v0.y, v1.y, v2.y);
        match self.clip_rect(bx0, by0, bx1, by1, ctx) {
            None => true,
            Some(q) => q.2 <= 1024 && q.3 <= 512,
        }
    }

    fn fb_args_ok(&self, fb_len: usize, full_ram: bool, ctx: &RenderingContext) -> (r: bool)
        ensures
            r == spec_fb_ok(fb_len as int, full_ram, *ctx),
    {
        if fb_len < 1024 * 512 {
            return false;
        }
        if ctx.display_disabled || full_ram {
            return true;
        }
        if ctx.hres.0 >= 8 || ctx.display_line_end < ctx.display_line_start {
            return false;
        }
        let w = ctx.hres.into_pixels() as u64;
        let h = ctx.vres.into_pixels() as u64;
        let sx = ctx.display_vram_x_start as u64;
        let sy = ctx.display_vram_y_start as u64;
        let src_ok = match ctx.display_depth {
            DisplayDepth::D15Bits => 2 * (1024 * (sy + h - 1) + (sx + w - 1)) + 1 < VRAM_BYTES as u64,
            DisplayDepth::D24Bits => 2 * (1024 * (h - 1 + sy)) + 3 * sx + 3 * (w - 1) + 2 < VRAM_BYTES as u64,
        };
        if !src_ok {
            return false;
        }
        let vrange = (ctx.display_line_end - ctx.display_line_start) as u64;
        if h >= vrange {
            let start = vrange * 1024 * if ctx.interlaced { 2 } else { 1 };
            start <= fb_len as u64
        } else {
            true
        }
    }

    /// Handles one request: draws it, copies data in or out of VRAM, or
    /// produces a frame into `framebuffer`. Requests that would leave VRAM
    /// or the frame buffer are rejected; shaded and textured triangles are
    /// handed back.
    pub fn process(&mut self, msg: RendererMsg, framebuffer: &mut Vec<Color>) -> (r: Processed)
        requires
            old(self).wf(),
        ensures
            final(self).wf(),
            spec_processed(old(self).vram@, final(self).vram@, old(framebuffer)@, final(framebuffer)@, msg, r),
    {
        match msg {
            RendererMsg::DrawLine { v0, v1, c0, semi_transparent, ctx } => {
                if !self.line_args_ok(v0, v1, &ctx) {
                    return Processed::Rejected;
                }
                if semi_transparent {
                    self.draw_line::<true>(v0, v1, c0, &ctx);
                } else {
                    self.draw_line::<false>(v0, v1, c0, &ctx);
                }
                Processed::Done
            },
            RendererMsg::DrawLineShaded { v0, v1, c0, c1, semi_transparent, ctx } => {
                if !self.line_args_ok(v0, v1, &ctx) {
                    return Processed::Rejected;
                }
                if semi_transparent {
                    self.draw_line_shaded::<true>(v0, v1, c0, c1, &ctx);
                } else {
                    self.draw_line_shaded::<false>(v0, v1, c0, c1, &ctx);
                }
                Processed::Done
            },
            RendererMsg::DrawRectangle { v, side, c, semi_transparent, ctx } => {
                if !self.rect_args_ok(v, side, &ctx) {
                    return Processed::Rejected;
                }
                if semi_transparent {
                    self.draw_rectangle::<true>(v, side, c, &ctx);
                } else {
                    self.draw_rectangle::<false>(v, side, c, &ctx);
                }
                Processed::Done
            },
            RendererMsg::DrawRectangleTextured { v, side, c, clut, _u, _v, semi_transparent, blend, ctx } => {
                if !self.rect_args_ok(v, side, &ctx) {
                    return Processed::Rejected;
                }
                let drawn = if semi_transparent {
                    if blend {
                        self.draw_rectangle_textured::<true, true>(v, side, c, clut, [_u, _v], &ctx)
                    } else {
                        self.draw_rectangle_textured::<true, false>(v, side, c, clut, [_u, _v], &ctx)
                    }
                } else {
                    if blend {
                        self.draw_rectangle_textured::<false, true>(v, side, c, clut, [_u, _v], &ctx)
                    } else {
                        self.draw_rectangle_textured::<false, false>(v, side, c, clut, [_u, _v], &ctx)
                    }
                };
                if drawn {
                    Processed::Done
                } else {
                    Processed::Rejected
                }
            },
            RendererMsg::DrawTriangleMono { c, v0, v1, v2, semi_transparent, ctx } => {
                if !self.tri_args_ok(v0, v1, v2, &ctx) {
                    return Processed::Rejected;
                }
                let mut vs = [v0, v1, v2];
                assert(vs@ == seq![v0, v1, v2]);
                if semi_transparent {
                    self.render_triangle_mono::<true>(c, &mut vs, &ctx);
                } else {
                    self.render_triangle_mono::<false>(c, &mut vs, &ctx);
                }
                Processed::Done
            },
            RendererMsg::DrawTriangleShaded { .. } => Processed::Deferred(msg),
            RendererMsg::DrawTriangleTextured { .. } => Processed::Deferred(msg),
            RendererMsg::DrawTriangleTexturedShaded { .. } => Processed::Deferred(msg),
            RendererMsg::FillRect { v, side, c, ctx } => {
                let sx = v.x as i64 + side.x as i64;
                let sy = v.y as i64 + side.y as i64;
                if !(i32::MIN as i64 <= sx && sx <= i32::MAX as i64 && i32::MIN as i64 <= sy && sy <= i32::MAX as i64) {
                    return Processed::Rejected;
                }
                self.fill_rect(v, side, c);
                Processed::Done
            },
            RendererMsg::Vram2VramBlit { src, dst, size } => {
                let ok = 0 <= size.x && 0 <= size.y && 0 <= src.x && 0 <= src.y && 0 <= dst.x && 0 <= dst.y && (
                size.y == 0 || size.x == 0 || (src.x as i64 + size.x as i64 <= 1024 && dst.x as i64 + size.x as i64
                    <= 1024 && src.y as i64 + size.y as i64 <= 512 && dst.y as i64 + size.y as i64 <= 512));
                if !ok {
                    return Processed::Rejected;
                }
                self.vram2vram_blit(src, dst, size);
                Processed::Done
            },
            RendererMsg::RenderFB { full_ram, ctx } => {
                if !self.fb_args_ok(framebuffer.len(), full_ram, &ctx) {
                    return Processed::Rejected;
                }
                let (width, height) = self.render_fb(framebuffer, full_ram, &ctx);
                Processed::Respond(RendererResponse::FBUpdated { width, height })
            },
            RendererMsg::CpuToVramCopy { top_left, size, data } => {
                let n = data.len() as u128;
                if !(size.0 > 0 && top_left.0 as u32 + size.0 as u32 <= 0xffff && top_left.1 as u128 + (2 * n) / (size.0 as u128) <= 0xffff) {
                    return Processed::Rejected;
                }
                self.cpu_to_vram_copy(top_left, size, &data);
                Processed::Done
            },
            RendererMsg::VramToCpuCopy { top_left, size } => {
                if !(size.0 > 0 && size.1 > 0 && top_left.0 as u32 + size.0 as u32 <= 0xffff && top_left.1 as u32
                    + size.1 as u32 + 1 <= 0xffff) {
                    return Processed::Rejected;
                }
                let data = self.vram_to_cpu_copy(top_left, size);
                Processed::Respond(RendererResponse::VramToCpuData { data })
            },
        }
    }
}

/// A block of no rows copies nothing, whatever its width.
proof fn lemma_blit_empty_rows(v: Seq<u8>, src: Vertex, dst: Vertex, y: int)
    requires
        y >= 0,
    ensures
        spec_blit(v, src, dst, 0, y, 0) == v,
    decreases y,
{
    if y > 0 {
        lemma_blit_empty_rows(v, src, dst, y - 1);
    }
}

/// The bytes `(lo, hi)` of a pixel after plotting colour `c` over it: unchanged
/// when masked off, else `c` (blended over the old pixel when `semi`).
pub open spec fn spec_plot_bytes(p: (u8, u8), c: Colour, semi: bool, mode: u8, ctx: RenderingContext) -> (u8, u8) {
    if ctx.preserve_masked_pixels && (p.1 & 0x80) != 0 {
        p
    } else {
        let s = spec_shade(c, spec_colour_from_pixel(spec_halfword(p.0, p.1)), semi, mode);
        (spec_lo(s), spec_hi(s, ctx))
    }
}

/// The two bytes of pixel `(x, y)`.
pub open spec fn spec_px(v: Seq<u8>, x: int, y: int) -> (u8, u8) {
    (v[spec_addr(x, y)], v[spec_addr(x, y) + 1])
}

/// `v` with the bytes of pixel `(x, y)` set to `p`.
pub open spec fn spec_set_px(v: Seq<u8>, x: int, y: int, p: (u8, u8)) -> Seq<u8> {
    v.update(spec_addr(x, y), p.0).update(spec_addr(x, y) + 1, p.1)
}

/// `new` is `old` with every pixel for which `covered` holds replaced by `f`
/// of its old bytes, and every other pixel unchanged.
pub open spec fn spec_painted(
    old: Seq<u8>,
    new: Seq<u8>,
    covered: spec_fn(int, int) -> bool,
    f: spec_fn((u8, u8)) -> (u8, u8),
) -> bool {
    &&& new.len() == old.len()
    &&& forall|x: int, y: int|
        #![trigger spec_px(new, x, y)]
        in_vram(x, y) ==> spec_px(new, x, y) == if covered(x, y) {
            f(spec_px(old, x, y))
        } else {
            spec_px(old, x, y)
        }
}

/// Painting one more pixel `(x0, y0)` extends the painted region by it.
pub proof fn lemma_paint_step(
    old: Seq<u8>,
    cur: Seq<u8>,
    covered: spec_fn(int, int) -> bool,
    next: spec_fn(int, int) -> bool,
    f: spec_fn((u8, u8)) -> (u8, u8),
    x0: int,
    y0: int,
)
    requires
        old.len() == VRAM_BYTES,
        spec_painted(old, cur, covered, f),
        in_vram(x0, y0),
        !covered(x0, y0),
        forall|x: int, y: int| #[trigger] next(x, y) == (covered(x, y) || (x == x0 && y == y0)),
    ensures
        spec_painted(old, spec_set_px(cur, x0, y0, f(spec_px(cur, x0, y0))), next, f),
        spec_px(cur, x0, y0) == spec_px(old, x0, y0),
{
    let new = spec_set_px(cur, x0, y0, f(spec_px(cur, x0, y0)));
    assert(spec_px(cur, x0, y0) == spec_px(old, x0, y0));
    assert forall|x: int, y: int| #![trigger spec_px(new, x, y)] in_vram(x, y) implies spec_px(new, x, y) == if next(x, y) {
        f(spec_px(old, x, y))
    } else {
        spec_px(old, x, y)
    } by {
        assert(spec_px(cur, x, y) == if covered(x, y) {
            f(spec_px(old, x, y))
        } else {
            spec_px(old, x, y)
        });
        assert(next(x, y) == (covered(x, y) || (x == x0 && y == y0)));
    }
}

/// Painting is the same for two regions that hold of the same pixels.
pub proof fn lemma_painted_ext(
    old: Seq<u8>,
    new: Seq<u8>,
    c1: spec_fn(int, int) -> bool,
    c2: spec_fn(int, int) -> bool,
    f: spec_fn((u8, u8)) -> (u8, u8),
)
    requires
        spec_painted(old, new, c1, f),
        forall|x: int, y: int| in_vram(x, y) ==> #[trigger] c1(x, y) == #[trigger] c2(x, y),
    ensures
        spec_painted(old, new, c2, f),
{
    assert forall|x: int, y: int| #![trigger spec_px(new, x, y)] in_vram(x, y) implies spec_px(new, x, y) == if c2(x, y) {
        f(spec_px(old, x, y))
    } else {
        spec_px(old, x, y)
    } by {
        assert(c1(x, y) == c2(x, y));
    }
}

} // verus!
