//! Axis-aligned rectangles on an integer grid, top-left origin, y growing
//! downward.

use vstd::prelude::*;

verus! {

/// Smallest width and height a resize leaves behind.
pub const MIN_SIZE: i32 = 10;

/// The nearest `i32` to `v`.
pub open spec fn clamp_coord(v: int) -> int {
    if v < i32::MIN {
        i32::MIN as int
    } else if v > i32::MAX {
        i32::MAX as int
    } else {
        v
    }
}

/// Brings a wide intermediate result back into the coordinate range.
pub fn saturate(v: i64) -> (r: i32)
    ensures
        r == clamp_coord(v as int),
{
    if v < i32::MIN as i64 {
        i32::MIN
    } else if v > i32::MAX as i64 {
        i32::MAX
    } else {
        v as i32
    }
}

/// As [`saturate`], for results that outgrow 64 bits.
pub fn saturate_wide(v: i128) -> (r: i32)
    ensures
        r == clamp_coord(v as int),
{
    if v < i32::MIN as i128 {
        i32::MIN
    } else if v > i32::MAX as i128 {
        i32::MAX
    } else {
        v as i32
    }
}

/// A rectangle given by its top-left corner and its size.
#[derive(Clone, Copy, Debug, PartialEq, Eq, Structural)]
pub struct Rect {
    pub x: i32,
    pub y: i32,
    pub w: i32,
    pub h: i32,
}

impl Rect {
    /// The x-coordinate of the right edge.
    pub open spec fn right(self) -> int {
        self.x + self.w
    }

    /// The y-coordinate of the bottom edge.
    pub open spec fn bottom(self) -> int {
        self.y + self.h
    }

    /// Both extents are strictly positive.
    pub open spec fn non_degenerate(self) -> bool {
        self.w > 0 && self.h > 0
    }

    /// Whether the point lies inside the rectangle, borders included.
    pub open spec fn covers(self, px: int, py: int) -> bool {
        self.x <= px <= self.right() && self.y <= py <= self.bottom()
    }

    pub fn new(x: i32, y: i32, w: i32, h: i32) -> (r: Rect)
        ensures
            r == (Rect { x, y, w, h }),
    {
        Rect { x, y, w, h }
    }

    /// Containment test, inclusive of all four borders.
    pub fn contains(&self, px: i32, py: i32) -> (inside: bool)
        ensures
            inside == self.covers(px as int, py as int),
    {
        let right: i64 = self.x as i64 + self.w as i64;
        let bottom: i64 = self.y as i64 + self.h as i64;
        px >= self.x && px as i64 <= right && py as i64 <= bottom && py >= self.y
    }

    /// Re-anchors the top-left corner at `(x, y)`; the size is untouched.
    pub fn move_to(&mut self, x: i32, y: i32)
        ensures
            *final(self) == (Rect { x, y, ..*old(self) }),
    {
        self.x = x;
        self.y = y;
    }
}

/// Chainable in-place adjustments of a rectangle. Each method hands back the
/// rectangle it was called on, so that calls can be strung together.
pub trait RectExt {
    fn from_y(&mut self, y: i32) -> &mut Rect;

    fn with_height(&mut self, h: i32) -> &mut Rect;

    fn with_width(&mut self, w: i32) -> &mut Rect;

    fn clip_by(&mut self, d: i32) -> &mut Rect;

    fn update_pos_n_size(&mut self, x: i32, y: i32, w: i32, h: i32);
}

/// The rectangle shrunk by `d` on every side: the corner moves in by `d` and
/// each extent loses `2 * d`. A negative `d` grows it.
pub open spec fn clipped(r: Rect, d: int) -> Rect {
    Rect {
        x: clamp_coord(r.x + d) as i32,
        y: clamp_coord(r.y + d) as i32,
        w: clamp_coord(r.w - 2 * d) as i32,
        h: clamp_coord(r.h - 2 * d) as i32,
    }
}

impl RectExt for Rect {
    /// Sets the top edge.
    fn from_y(&mut self, y: i32) -> (r: &mut Rect)
        ensures
            *r == (Rect { y, ..*old(self) }),
            *final(self) == *final(r),
    {
        self.y = y;
        self
    }

    /// Sets the height.
    fn with_height(&mut self, h: i32) -> (r: &mut Rect)
        ensures
            *r == (Rect { h, ..*old(self) }),
            *final(self) == *final(r),
    {
        self.h = h;
        self
    }

    /// Sets the width.
    fn with_width(&mut self, w: i32) -> (r: &mut Rect)
        ensures
            *r == (Rect { w, ..*old(self) }),
            *final(self) == *final(r),
    {
        self.w = w;
        self
    }

    /// Insets the rectangle by `d` on every side.
    fn clip_by(&mut self, d: i32) -> (r: &mut Rect)
        ensures
            *r == clipped(*old(self), d as int),
            *final(self) == *final(r),
    {
        self.x = saturate(self.x as i64 + d as i64);
        self.y = saturate(self.y as i64 + d as i64);
        self.w = saturate(self.w as i64 - 2 * (d as i64));
        self.h = saturate(self.h as i64 - 2 * (d as i64));
        self
    }

    /// Overwrites position and size in one step.
    fn update_pos_n_size(&mut self, x: i32, y: i32, w: i32, h: i32)
        ensures
            *final(self) == (Rect { x, y, w, h }),
    {
        self.x = x;
        self.y = y;
        self.w = w;
        self.h = h;
    }
}

} // verus!
