use vstd::prelude::*;

verus! {

/// The bounding box `(ax, ay)`-`(bx, by)` of the VRAM areas drawn to since
/// the last flush, or nothing.
pub struct DirtyRegion {
    pub ax: i32,
    pub ay: i32,
    pub bx: i32,
    pub by: i32,
    pub empty: bool,
}

/// The closed rectangles `(ax, ay)`-`(bx, by)` and `(cx, cy)`-`(dx, dy)`
/// overlap.
pub open spec fn spec_overlaps(ax: int, ay: int, bx: int, by: int, cx: int, cy: int, dx: int, dy: int) -> bool {
    ax <= dx && bx >= cx && ay <= dy && by >= cy
}

impl DirtyRegion {
    /// Whether the rectangle `(ax, ay)`-`(bx, by)` overlaps the region.
    pub open spec fn spec_intersects(&self, ax: int, ay: int, bx: int, by: int) -> bool {
        !self.empty && spec_overlaps(ax, ay, bx, by, self.ax as int, self.ay as int, self.bx as int, self.by as int)
    }

    /// The empty region.
    pub fn empty() -> (r: Self)
        ensures
            r.empty,
    {
        DirtyRegion { ax: 0, ay: 0, bx: 0, by: 0, empty: true }
    }

    /// Empties the region.
    pub fn clear(&mut self)
        ensures
            final(self).empty,
            final(self).ax == old(self).ax && final(self).ay == old(self).ay,
            final(self).bx == old(self).bx && final(self).by == old(self).by,
    {
        self.empty = true;
    }

    /// Whether the rectangle `(ax, ay)`-`(bx, by)` overlaps the region.
    pub fn intersects(&self, ax: i32, ay: i32, bx: i32, by: i32) -> (r: bool)
        ensures
            r == self.spec_intersects(ax as int, ay as int, bx as int, by as int),
    {
        if self.empty {
            false
        } else {
            (ax <= self.bx) && (bx >= self.ax) && (ay <= self.by) && (by >= self.ay)
        }
    }

    /// Grows the region to the bounding box of itself and the rectangle
    /// `(ax, ay)`-`(bx, by)`.
    pub fn merge(&mut self, ax: i32, ay: i32, bx: i32, by: i32)
        ensures
            !final(self).empty,
            old(self).empty ==> final(self).ax == ax && final(self).ay == ay && final(self).bx == bx && final(self).by == by,
            !old(self).empty ==> {
                &&& final(self).ax == (if old(self).ax <= ax { old(self).ax } else { ax })
                &&& final(self).ay == (if old(self).ay <= ay { old(self).ay } else { ay })
                &&& final(self).bx == (if old(self).bx >= bx { old(self).bx } else { bx })
                &&& final(self).by == (if old(self).by >= by { old(self).by } else { by })
            },
    {
        if self.empty {
            self.ax = ax;
            self.ay = ay;
            self.bx = bx;
            self.by = by;
            self.empty = false;
        } else {
            self.ax = if self.ax <= ax { self.ax } else { ax };
            self.ay = if self.ay <= ay { self.ay } else { ay };
            self.bx = if self.bx >= bx { self.bx } else { bx };
            self.by = if self.by >= by { self.by } else { by };
        }
    }
}

/// After merging a rectangle into a region, every rectangle that overlaps
/// the merged rectangle, or that overlapped the region before, intersects
/// the region.
pub proof fn lemma_merge_covers(
    before: DirtyRegion,
    after: DirtyRegion,
    ax: i32,
    ay: i32,
    bx: i32,
    by: i32,
    cx: int,
    cy: int,
    dx: int,
    dy: int,
)
    requires
        ax <= bx,
        ay <= by,
        !after.empty,
        before.empty ==> after.ax == ax && after.ay == ay && after.bx == bx && after.by == by,
        !before.empty ==> {
            &&& after.ax == (if before.ax <= ax { before.ax } else { ax })
            &&& after.ay == (if before.ay <= ay { before.ay } else { ay })
            &&& after.bx == (if before.bx >= bx { before.bx } else { bx })
            &&& after.by == (if before.by >= by { before.by } else { by })
        },
        spec_overlaps(cx, cy, dx, dy, ax as int, ay as int, bx as int, by as int) || before.spec_intersects(cx, cy, dx, dy),
    ensures
        after.spec_intersects(cx, cy, dx, dy),
{
}

} // verus!
