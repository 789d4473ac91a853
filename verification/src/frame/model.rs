//! Frame model: regions, controls, resize edges and placement state.

use vstd::prelude::*;
use crate::arith::{min_i32, max_i32, min_int, max_int, sat_add, sat_i32, sat_sub};
use crate::cursor::CursorKind;
use crate::frame::coords::RootRect;
use crate::geometry::{Rect, rect_bottom, rect_right};

verus! {

/// Which part of the frame a pointer hit belongs to.
#[derive(Debug, Clone, Copy, PartialEq, Eq, Structural, Hash)]
pub enum FrameRegion {
    Client,
    TitleDrag,
    Control(FrameControl),
    Resize(ResizeEdges),
}

/// Title-bar control button.
#[derive(Debug, Clone, Copy, PartialEq, Eq, Structural, Hash)]
pub enum FrameControl {
    Minimize,
    MaximizeRestore,
    Close,
}

/// Set of frame edges a resize drags.
#[derive(Debug, Clone, Copy, PartialEq, Eq, Structural, Hash)]
pub struct ResizeEdges {
    pub left: bool,
    pub right: bool,
    pub top: bool,
    pub bottom: bool,
}

pub open spec fn edges(left: bool, right: bool, top: bool, bottom: bool) -> ResizeEdges {
    ResizeEdges { left, right, top, bottom }
}

/// Exactly one horizontal and exactly one vertical edge.
pub open spec fn edges_is_corner(e: ResizeEdges) -> bool {
    (e.left != e.right) && (e.top != e.bottom)
}

pub open spec fn edges_is_empty(e: ResizeEdges) -> bool {
    !(e.left || e.right || e.top || e.bottom)
}

/// Minimum frame size kept by [`ResizeEdges::resized_rect`].
pub const RESIZE_MIN_WIDTH: i32 = 160;
pub const RESIZE_MIN_HEIGHT: i32 = 96;

/// What [`ResizeEdges::resized_rect`] returns: each dragged edge moves by
/// the delta but stops `160 x 96` short of the opposite edge; an inverted
/// extent falls back to the minimum.
pub open spec fn edges_resized_rect(start: Rect, e: ResizeEdges, dx: i32, dy: i32) -> Rect {
    let right0 = rect_right(start) as int;
    let bottom0 = rect_bottom(start) as int;
    let left = if e.left {
        min_int(sat_i32(start.x + dx) as int, sat_i32(right0 - 160) as int)
    } else {
        start.x as int
    };
    let top = if e.top {
        min_int(sat_i32(start.y + dy) as int, sat_i32(bottom0 - 96) as int)
    } else {
        start.y as int
    };
    let right = if e.right {
        max_int(sat_i32(right0 + dx) as int, sat_i32(left + 160) as int)
    } else {
        right0
    };
    let bottom = if e.bottom {
        max_int(sat_i32(bottom0 + dy) as int, sat_i32(top + 96) as int)
    } else {
        bottom0
    };
    let w = sat_i32(right - left) as int;
    let h = sat_i32(bottom - top) as int;
    Rect {
        x: left as i32,
        y: top as i32,
        width: (if w < 0 { 160 } else { w }) as u32,
        height: (if h < 0 { 96 } else { h }) as u32,
    }
}

/// The cursor a resize edge set shows: corners diagonal (top-left and
/// bottom-right share one), single edges straight, empty the default.
pub open spec fn edges_cursor(e: ResizeEdges) -> CursorKind {
    if (e.left || e.right) && (e.top || e.bottom) {
        if e.top == e.left {
            CursorKind::ResizeNorthWestSouthEast
        } else {
            CursorKind::ResizeNorthEastSouthWest
        }
    } else if e.left || e.right {
        CursorKind::ResizeHorizontal
    } else if e.top || e.bottom {
        CursorKind::ResizeVertical
    } else {
        CursorKind::Default
    }
}

impl Default for ResizeEdges {
    fn default() -> (r: Self)
        ensures
            r == edges(false, false, false, false),
    {
        Self::none()
    }
}

impl ResizeEdges {
    pub fn none() -> (r: Self)
        ensures
            r == edges(false, false, false, false),
    {
        ResizeEdges { left: false, right: false, top: false, bottom: false }
    }

    pub fn left() -> (r: Self)
        ensures
            r == edges(true, false, false, false),
    {
        ResizeEdges { left: true, right: false, top: false, bottom: false }
    }

    pub fn right() -> (r: Self)
        ensures
            r == edges(false, true, false, false),
    {
        ResizeEdges { left: false, right: true, top: false, bottom: false }
    }

    pub fn top() -> (r: Self)
        ensures
            r == edges(false, false, true, false),
    {
        ResizeEdges { left: false, right: false, top: true, bottom: false }
    }

    pub fn bottom() -> (r: Self)
        ensures
            r == edges(false, false, false, true),
    {
        ResizeEdges { left: false, right: false, top: false, bottom: true }
    }

    pub fn top_left() -> (r: Self)
        ensures
            r == edges(true, false, true, false),
    {
        ResizeEdges { left: true, right: false, top: true, bottom: false }
    }

    pub fn top_right() -> (r: Self)
        ensures
            r == edges(false, true, true, false),
    {
        ResizeEdges { left: false, right: true, top: true, bottom: false }
    }

    pub fn bottom_left() -> (r: Self)
        ensures
            r == edges(true, false, false, true),
    {
        ResizeEdges { left: true, right: false, top: false, bottom: true }
    }

    pub fn bottom_right() -> (r: Self)
        ensures
            r == edges(false, true, false, true),
    {
        ResizeEdges { left: false, right: true, top: false, bottom: true }
    }

    pub fn is_empty(self) -> (r: bool)
        ensures
            r == edges_is_empty(self),
    {
        !(self.left || self.right || self.top || self.bottom)
    }

    /// True for the four corners only.
    pub fn is_corner(self) -> (r: bool)
        ensures
            r == edges_is_corner(self),
    {
        (self.left != self.right) && (self.top != self.bottom)
    }

    /// Resize drag of a legacy frame rect with a `160 x 96` minimum.
    pub fn resized_rect(start: Rect, edges: Self, dx: i32, dy: i32) -> (r: Rect)
        ensures
            r == edges_resized_rect(start, edges, dx, dy),
    {
        let mut left = start.x;
        let mut top = start.y;
        let mut right = start.right();
        let mut bottom = start.bottom();
        if edges.left {
            left = min_i32(sat_add(left, dx), sat_sub(right, RESIZE_MIN_WIDTH));
        }
        if edges.top {
            top = min_i32(sat_add(top, dy), sat_sub(bottom, RESIZE_MIN_HEIGHT));
        }
        if edges.right {
            right = max_i32(sat_add(right, dx), sat_add(left, RESIZE_MIN_WIDTH));
        }
        if edges.bottom {
            bottom = max_i32(sat_add(bottom, dy), sat_add(top, RESIZE_MIN_HEIGHT));
        }
        let w = sat_sub(right, left);
        let h = sat_sub(bottom, top);
        Rect::new(
            left,
            top,
            if w < 0 { 160 } else { w as u32 },
            if h < 0 { 96 } else { h as u32 },
        )
    }

    /// Semantic resize cursor for an edge set.
    pub fn cursor_kind(self) -> (r: CursorKind)
        ensures
            r == edges_cursor(self),
    {
        if (self.left || self.right) && (self.top || self.bottom) {
            if self.top == self.left {
                CursorKind::ResizeNorthWestSouthEast
            } else {
                CursorKind::ResizeNorthEastSouthWest
            }
        } else if self.left || self.right {
            CursorKind::ResizeHorizontal
        } else if self.top || self.bottom {
            CursorKind::ResizeVertical
        } else {
            CursorKind::Default
        }
    }
}

/// Law: dragging the left edge keeps the right edge and never leaves less
/// than 160 pixels of width, as long as no coordinate saturates.
pub proof fn lemma_resized_rect_left_min_width(start: Rect, dx: i32)
    requires
        start.x as int + start.width as int <= i32::MAX,
        start.width <= i32::MAX,
        start.x as int + start.width as int - 160 >= i32::MIN,
        start.x as int + dx as int >= i32::MIN,
        start.x as int + dx as int <= i32::MAX,
        start.width as int - dx as int <= i32::MAX,
        start.y as int + start.height as int <= i32::MAX,
        start.height <= i32::MAX,
    ensures
        ({
            let r = edges_resized_rect(start, edges(true, false, false, false), dx, 0);
            &&& r.width >= 160
            &&& r.x + r.width == start.x + start.width
            &&& r.y == start.y
            &&& r.height == start.height
        }),
{
}

/// Law: dragging the bottom edge keeps the top edge and leaves at least
/// 96 pixels of height, as long as no coordinate saturates.
pub proof fn lemma_resized_rect_bottom_min_height(start: Rect, dy: i32)
    requires
        start.y as int + start.height as int + dy as int <= i32::MAX,
        start.y as int + start.height as int + dy as int >= i32::MIN,
        start.y as int + start.height as int <= i32::MAX,
        start.height <= i32::MAX,
        start.y as int + 96 <= i32::MAX,
        start.x as int + start.width as int <= i32::MAX,
        start.width <= i32::MAX,
    ensures
        ({
            let r = edges_resized_rect(start, edges(false, false, false, true), 0, dy);
            &&& r.height >= 96
            &&& r.y == start.y
            &&& r.x == start.x
            &&& r.width == start.width
        }),
{
}

/// Snap target for the snapped placement mode.
#[derive(Debug, Clone, Copy, PartialEq, Eq, Structural, Hash)]
pub enum SnapTarget {
    Left,
    Right,
    Top,
    Bottom,
    TopLeft,
    TopRight,
    BottomLeft,
    BottomRight,
}

/// Window placement mode.
#[derive(Debug, Clone, Copy, PartialEq, Eq, Structural, Hash)]
pub enum PlacementMode {
    Floating,
    Snapped(SnapTarget),
    Maximized,
    Fullscreen,
}

/// Value-only snapshot of a placement (a resume target).
#[derive(Debug, Clone, Copy, PartialEq, Eq, Structural, Hash)]
pub struct PlacementSnapshot {
    pub mode: PlacementMode,
    pub rect: RootRect,
}

/// Value-only placement state: current rect, the floating restore rect and
/// an optional resume snapshot.
#[derive(Debug, Clone, Copy, PartialEq, Eq, Structural, Hash)]
pub struct PlacementState {
    pub mode: PlacementMode,
    pub current: RootRect,
    pub floating_restore: RootRect,
    pub resume: Option<PlacementSnapshot>,
}

} // verus!
