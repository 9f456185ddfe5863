//! Which edge or corner of a rectangle a point is near, and how a drag on
//! that edge reshapes the rectangle.

use vstd::prelude::*;
use crate::geometry::{clamp_coord, saturate, Rect, MIN_SIZE};

verus! {

/// The part of a rectangle's border that a pointer has hold of.
#[derive(Debug, PartialEq, Eq, Clone, Copy, Structural)]
pub enum ResizeEdge {
    Left,
    Right,
    Top,
    Bottom,
    TopLeft,
    TopRight,
    BottomLeft,
    BottomRight,
    NoEdge,
}

impl ResizeEdge {
    /// The left border takes part in this edge.
    pub open spec fn has_left(self) -> bool {
        self == ResizeEdge::Left || self == ResizeEdge::TopLeft || self == ResizeEdge::BottomLeft
    }

    /// The right border takes part in this edge.
    pub open spec fn has_right(self) -> bool {
        self == ResizeEdge::Right || self == ResizeEdge::TopRight || self
            == ResizeEdge::BottomRight
    }

    /// The top border takes part in this edge.
    pub open spec fn has_top(self) -> bool {
        self == ResizeEdge::Top || self == ResizeEdge::TopLeft || self == ResizeEdge::TopRight
    }

    /// The bottom border takes part in this edge.
    pub open spec fn has_bottom(self) -> bool {
        self == ResizeEdge::Bottom || self == ResizeEdge::BottomLeft || self
            == ResizeEdge::BottomRight
    }

    /// One horizontal and one vertical border meet in this edge.
    pub open spec fn is_corner(self) -> bool {
        (self.has_top() || self.has_bottom()) && (self.has_left() || self.has_right())
    }
}

/// A coordinate lies strictly closer than `margin` to a border line.
pub open spec fn near(coord: int, line: int, margin: int) -> bool {
    -margin < coord - line < margin
}

/// The edge that a point is classified as. A horizontal and a vertical border
/// within reach together make a corner; top wins over bottom and left over
/// right where both of a pair are within reach.
pub open spec fn classify(rect: Rect, px: int, py: int, margin: int) -> ResizeEdge {
    let left = near(px, rect.x as int, margin);
    let right = near(px, rect.right(), margin);
    let top = near(py, rect.y as int, margin);
    let bottom = near(py, rect.bottom(), margin);
    if top && left {
        ResizeEdge::TopLeft
    } else if top && right {
        ResizeEdge::TopRight
    } else if bottom && left {
        ResizeEdge::BottomLeft
    } else if bottom && right {
        ResizeEdge::BottomRight
    } else if top {
        ResizeEdge::Top
    } else if bottom {
        ResizeEdge::Bottom
    } else if left {
        ResizeEdge::Left
    } else if right {
        ResizeEdge::Right
    } else {
        ResizeEdge::NoEdge
    }
}

fn is_near(coord: i32, line: i64, margin: i32) -> (b: bool)
    requires
        i32::MIN + i32::MIN <= line <= i32::MAX + i32::MAX,
    ensures
        b == near(coord as int, line as int, margin as int),
{
    let d: i64 = coord as i64 - line;
    -(margin as i64) < d && d < margin as i64
}

/// Classifies the pointer position against the four borders of `rect`.
pub fn mouse_near_edge(rect: Rect, mouse_x: i32, mouse_y: i32, edge_margin: i32) -> (edge:
    ResizeEdge)
    ensures
        edge == classify(rect, mouse_x as int, mouse_y as int, edge_margin as int),
{
    let left = is_near(mouse_x, rect.x as i64, edge_margin);
    let right = is_near(mouse_x, rect.x as i64 + rect.w as i64, edge_margin);
    let top = is_near(mouse_y, rect.y as i64, edge_margin);
    let bottom = is_near(mouse_y, rect.y as i64 + rect.h as i64, edge_margin);

    match (top, bottom, left, right) {
        (true, _, true, _) => ResizeEdge::TopLeft,
        (true, _, _, true) => ResizeEdge::TopRight,
        (_, true, true, _) => ResizeEdge::BottomLeft,
        (_, true, _, true) => ResizeEdge::BottomRight,
        (true, _, false, false) => ResizeEdge::Top,
        (_, true, false, false) => ResizeEdge::Bottom,
        (false, false, true, _) => ResizeEdge::Left,
        (false, false, _, true) => ResizeEdge::Right,
        _ => ResizeEdge::NoEdge,
    }
}

/// An extent after a drag, never below the minimum size.
pub open spec fn clamp_size(v: int) -> int {
    if clamp_coord(v) < MIN_SIZE {
        MIN_SIZE as int
    } else {
        clamp_coord(v)
    }
}

/// The rectangle after dragging `edge` by `(dx, dy)`. A left or top border
/// carries the corner along and gives up as much extent as it moved; a right
/// or bottom border only changes the extent. Only the extents are held to the
/// minimum: the corner follows the pointer even where the extent is pinned.
pub open spec fn resized(rect: Rect, edge: ResizeEdge, dx: int, dy: int) -> Rect {
    Rect {
        x: if edge.has_left() {
            clamp_coord(rect.x + dx) as i32
        } else {
            rect.x
        },
        y: if edge.has_top() {
            clamp_coord(rect.y + dy) as i32
        } else {
            rect.y
        },
        w: if edge.has_left() {
            clamp_size(rect.w - dx) as i32
        } else if edge.has_right() {
            clamp_size(rect.w + dx) as i32
        } else {
            clamp_size(rect.w as int) as i32
        },
        h: if edge.has_top() {
            clamp_size(rect.h - dy) as i32
        } else if edge.has_bottom() {
            clamp_size(rect.h + dy) as i32
        } else {
            clamp_size(rect.h as int) as i32
        },
    }
}

/// Applies one frame of pointer movement to the border that is held.
pub fn resize_rect(rect: &mut Rect, edge: ResizeEdge, mouse_dx: i32, mouse_dy: i32)
    ensures
        *final(rect) == resized(*old(rect), edge, mouse_dx as int, mouse_dy as int),
        final(rect).w >= MIN_SIZE,
        final(rect).h >= MIN_SIZE,
{
    let dx: i64 = mouse_dx as i64;
    let dy: i64 = mouse_dy as i64;
    match edge {
        ResizeEdge::Left => {
            rect.x = saturate(rect.x as i64 + dx);
            rect.w = saturate(rect.w as i64 - dx);
        },
        ResizeEdge::Right => {
            rect.w = saturate(rect.w as i64 + dx);
        },
        ResizeEdge::Top => {
            rect.y = saturate(rect.y as i64 + dy);
            rect.h = saturate(rect.h as i64 - dy);
        },
        ResizeEdge::Bottom => {
            rect.h = saturate(rect.h as i64 + dy);
        },
        ResizeEdge::TopLeft => {
            rect.x = saturate(rect.x as i64 + dx);
            rect.w = saturate(rect.w as i64 - dx);
            rect.y = saturate(rect.y as i64 + dy);
            rect.h = saturate(rect.h as i64 - dy);
        },
        ResizeEdge::TopRight => {
            rect.w = saturate(rect.w as i64 + dx);
            rect.y = saturate(rect.y as i64 + dy);
            rect.h = saturate(rect.h as i64 - dy);
        },
        ResizeEdge::BottomLeft => {
            rect.x = saturate(rect.x as i64 + dx);
            rect.w = saturate(rect.w as i64 - dx);
            rect.h = saturate(rect.h as i64 + dy);
        },
        ResizeEdge::BottomRight => {
            rect.w = saturate(rect.w as i64 + dx);
            rect.h = saturate(rect.h as i64 + dy);
        },
        ResizeEdge::NoEdge => {},
    }

    if rect.w < MIN_SIZE {
        rect.w = MIN_SIZE;
    }
    if rect.h < MIN_SIZE {
        rect.h = MIN_SIZE;
    }
}

/// Corner precedence: a point within reach of a horizontal border and of a
/// vertical border is classified as a corner, never as a plain edge, and the
/// corner is made of borders that are within reach.
pub proof fn lemma_corner_precedence(rect: Rect, px: int, py: int, margin: int)
    requires
        near(py, rect.y as int, margin) || near(py, rect.bottom(), margin),
        near(px, rect.x as int, margin) || near(px, rect.right(), margin),
    ensures
        classify(rect, px, py, margin).is_corner(),
        classify(rect, px, py, margin).has_top() ==> near(py, rect.y as int, margin),
        classify(rect, px, py, margin).has_bottom() ==> near(py, rect.bottom(), margin),
        classify(rect, px, py, margin).has_left() ==> near(px, rect.x as int, margin),
        classify(rect, px, py, margin).has_right() ==> near(px, rect.right(), margin),
{
}

/// The classification names only borders within reach, names a horizontal
/// border whenever one is within reach and a vertical one likewise, and is
/// `NoEdge` exactly when no border is.
pub proof fn lemma_classify_reach(rect: Rect, px: int, py: int, margin: int)
    ensures
        classify(rect, px, py, margin).has_top() ==> near(py, rect.y as int, margin),
        classify(rect, px, py, margin).has_bottom() ==> near(py, rect.bottom(), margin),
        classify(rect, px, py, margin).has_left() ==> near(px, rect.x as int, margin),
        classify(rect, px, py, margin).has_right() ==> near(px, rect.right(), margin),
        classify(rect, px, py, margin).has_top() || classify(rect, px, py, margin).has_bottom()
            <==> near(py, rect.y as int, margin) || near(py, rect.bottom(), margin),
        classify(rect, px, py, margin).has_left() || classify(rect, px, py, margin).has_right()
            <==> near(px, rect.x as int, margin) || near(px, rect.right(), margin),
        classify(rect, px, py, margin) == ResizeEdge::NoEdge <==> !near(py, rect.y as int, margin)
            && !near(py, rect.bottom(), margin) && !near(px, rect.x as int, margin) && !near(
            px,
            rect.right(),
            margin,
        ),
{
}

/// With a margin of zero or less no point is near any border.
pub proof fn lemma_no_margin_no_edge(rect: Rect, px: int, py: int, margin: int)
    requires
        margin <= 0,
    ensures
        classify(rect, px, py, margin) == ResizeEdge::NoEdge,
{
}

/// Minimum size: whatever the rectangle, the edge and the drag, the result
/// is at least `MIN_SIZE` wide and high, hence not degenerate.
pub proof fn lemma_resized_minimum(rect: Rect, edge: ResizeEdge, dx: int, dy: int)
    ensures
        resized(rect, edge, dx, dy).w >= MIN_SIZE,
        resized(rect, edge, dx, dy).h >= MIN_SIZE,
        resized(rect, edge, dx, dy).non_degenerate(),
{
}

/// A drag touches only what its edge is made of: the corner moves along an
/// axis only with the left or top border, and an extent already at or above
/// the minimum changes only if a border on its axis is held. In particular
/// `NoEdge` leaves such a rectangle as it is.
pub proof fn lemma_resized_frame(rect: Rect, edge: ResizeEdge, dx: int, dy: int)
    ensures
        !edge.has_left() ==> resized(rect, edge, dx, dy).x == rect.x,
        !edge.has_top() ==> resized(rect, edge, dx, dy).y == rect.y,
        !edge.has_left() && !edge.has_right() && rect.w >= MIN_SIZE ==> resized(
            rect,
            edge,
            dx,
            dy,
        ).w == rect.w,
        !edge.has_top() && !edge.has_bottom() && rect.h >= MIN_SIZE ==> resized(
            rect,
            edge,
            dx,
            dy,
        ).h == rect.h,
        edge == ResizeEdge::NoEdge && rect.w >= MIN_SIZE && rect.h >= MIN_SIZE ==> resized(
            rect,
            edge,
            dx,
            dy,
        ) == rect,
{
}

/// While the width stays at or above the minimum and nothing leaves the
/// coordinate range, dragging the left border keeps the right border where
/// it was. Once the width is pinned, the corner still follows the pointer and
/// the right border drifts by the shortfall.
pub proof fn lemma_left_drag_right_border(rect: Rect, edge: ResizeEdge, dx: int, dy: int)
    requires
        edge.has_left(),
        i32::MIN <= rect.x + dx <= i32::MAX,
        i32::MIN <= rect.w - dx <= i32::MAX,
    ensures
        rect.w - dx >= MIN_SIZE ==> resized(rect, edge, dx, dy).right() == rect.right(),
        rect.w - dx < MIN_SIZE ==> resized(rect, edge, dx, dy).right() == rect.right() + (MIN_SIZE
            - (rect.w - dx)),
{
}

} // verus!
