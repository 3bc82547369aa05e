use vstd::prelude::*;

verus! {

/// Largest magnitude any coordinate, size, velocity or force handed to the
/// core may have. It leaves plenty of headroom in an `i64` for the sums a
/// single tick forms, so every verified function is free of overflow.
pub const COORD_LIMIT: i64 = 0x4000_0000_0000;

/// An axis-aligned rectangle: the location and size of an entity in the
/// arena, in tenths of a world unit. Physics moves `x`/`y` only; `w`/`h` are
/// fixed when the owning entity is built.
pub struct Rect {
    pub x: i64,
    pub y: i64,
    pub w: i64,
    pub h: i64,
}

/// Mathematical image of a [`Rect`], used by every contract.
pub ghost struct RectModel {
    pub x: int,
    pub y: int,
    pub w: int,
    pub h: int,
}

impl View for Rect {
    type V = RectModel;

    open spec fn view(&self) -> RectModel {
        RectModel { x: self.x as int, y: self.y as int, w: self.w as int, h: self.h as int }
    }
}

/// All four fields of the rectangle are within [`COORD_LIMIT`].
pub open spec fn rect_in_bounds(r: RectModel) -> bool {
    &&& -COORD_LIMIT <= r.x <= COORD_LIMIT
    &&& -COORD_LIMIT <= r.y <= COORD_LIMIT
    &&& -COORD_LIMIT <= r.w <= COORD_LIMIT
    &&& -COORD_LIMIT <= r.h <= COORD_LIMIT
}

/// Two rectangles overlap; rectangles that merely touch along an edge count
/// as overlapping.
pub open spec fn overlaps_spec(a: RectModel, b: RectModel) -> bool {
    &&& a.x <= b.x + b.w
    &&& b.x <= a.x + a.w
    &&& a.y <= b.y + b.h
    &&& b.y <= a.y + a.h
}

impl Rect {
    pub fn new(x: i64, y: i64, w: i64, h: i64) -> (r: Rect)
        ensures
            r@ == (RectModel { x: x as int, y: y as int, w: w as int, h: h as int }),
    {
        Rect { x, y, w, h }
    }

    /// Standard axis-aligned overlap test, edges inclusive.
    pub fn overlaps(&self, other: &Rect) -> (r: bool)
        requires
            rect_in_bounds(self@),
            rect_in_bounds(other@),
        ensures
            r == overlaps_spec(self@, other@),
    {
        self.x <= other.x + other.w && other.x <= self.x + self.w && self.y <= other.y + other.h
            && other.y <= self.y + self.h
    }
}

} // verus!
