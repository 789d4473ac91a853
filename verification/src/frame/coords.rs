//! Frame coordinate domains: root (screen), frame-local and client-local.
//!
//! Root coordinates place the frame's outer top-left and the client's root
//! origin; frame-local coordinates start at the frame's outer top-left;
//! client-local coordinates start at the reparented client window, which
//! sits at `(0, titlebar)` inside the frame.

use vstd::prelude::*;
use crate::arith::{max_int, min_int, pos_u32, sat_add, sat_i32, sat_sub};
use crate::geometry::Rect;

verus! {

/// Point in root (screen) coordinates.
#[derive(Debug, Clone, Copy, PartialEq, Eq, Structural, Hash)]
pub struct RootPoint {
    pub x: i32,
    pub y: i32,
}

/// Point in frame-local coordinates.
#[derive(Debug, Clone, Copy, PartialEq, Eq, Structural, Hash)]
pub struct FramePoint {
    pub x: i32,
    pub y: i32,
}

/// Point in client-local coordinates.
#[derive(Debug, Clone, Copy, PartialEq, Eq, Structural, Hash)]
pub struct ClientLocalPoint {
    pub x: i32,
    pub y: i32,
}

/// Rectangle in root coordinates (typically a frame's outer rect).
#[derive(Debug, Clone, Copy, PartialEq, Eq, Structural, Hash)]
pub struct RootRect {
    pub x: i32,
    pub y: i32,
    pub w: i32,
    pub h: i32,
}

/// Rectangle in frame-local coordinates.
#[derive(Debug, Clone, Copy, PartialEq, Eq, Structural, Hash)]
pub struct FrameRect {
    pub x: i32,
    pub y: i32,
    pub w: i32,
    pub h: i32,
}

/// Rectangle in client-local coordinates.
#[derive(Debug, Clone, Copy, PartialEq, Eq, Structural, Hash)]
pub struct ClientLocalRect {
    pub x: i32,
    pub y: i32,
    pub w: i32,
    pub h: i32,
}

/// Client rectangle in root coordinates; a distinct type from [`RootRect`]
/// so frame-root and client-root geometry cannot be mixed silently.
#[derive(Debug, Clone, Copy, PartialEq, Eq, Structural, Hash)]
pub struct ClientRootRect {
    pub x: i32,
    pub y: i32,
    pub w: i32,
    pub h: i32,
}

pub open spec fn spec_root_rect(x: int, y: int, w: int, h: int) -> RootRect {
    RootRect { x: x as i32, y: y as i32, w: w as i32, h: h as i32 }
}

/// A positive `u32` size from a signed extent: `max(v, 1)`.
pub open spec fn pos_size(v: i32) -> u32 {
    max_int(v as int, 1) as u32
}

/// Root point to frame-local, given the frame origin (saturating).
pub open spec fn root_point_to_frame(p: RootPoint, origin: RootPoint) -> FramePoint {
    FramePoint { x: sat_i32(p.x - origin.x), y: sat_i32(p.y - origin.y) }
}

/// Frame-local point to root, given the frame origin (saturating).
pub open spec fn frame_point_to_root(p: FramePoint, origin: RootPoint) -> RootPoint {
    RootPoint { x: sat_i32(p.x + origin.x), y: sat_i32(p.y + origin.y) }
}

pub open spec fn root_rect_to_frame(r: RootRect, origin: RootPoint) -> FrameRect {
    FrameRect { x: sat_i32(r.x - origin.x), y: sat_i32(r.y - origin.y), w: r.w, h: r.h }
}

pub open spec fn frame_rect_to_root(r: FrameRect, origin: RootPoint) -> RootRect {
    RootRect { x: sat_i32(r.x + origin.x), y: sat_i32(r.y + origin.y), w: r.w, h: r.h }
}

/// Legacy `Rect` to `RootRect`: sizes capped at `i32::MAX`.
pub open spec fn legacy_to_root(r: Rect) -> RootRect {
    RootRect {
        x: r.x,
        y: r.y,
        w: min_int(r.width as int, i32::MAX as int) as i32,
        h: min_int(r.height as int, i32::MAX as int) as i32,
    }
}

/// `RootRect` to legacy `Rect`: sizes raised to at least 1.
pub open spec fn root_to_legacy(r: RootRect) -> Rect {
    Rect { x: r.x, y: r.y, width: pos_size(r.w), height: pos_size(r.h) }
}

impl RootPoint {
    pub fn new(x: i32, y: i32) -> (r: Self)
        ensures
            r == (RootPoint { x, y }),
    {
        RootPoint { x, y }
    }

    /// Explicit domain crossing: root to frame-local.
    pub fn to_frame(self, frame_origin: RootPoint) -> (r: FramePoint)
        ensures
            r == root_point_to_frame(self, frame_origin),
    {
        FramePoint { x: sat_sub(self.x, frame_origin.x), y: sat_sub(self.y, frame_origin.y) }
    }
}

impl FramePoint {
    pub fn new(x: i32, y: i32) -> (r: Self)
        ensures
            r == (FramePoint { x, y }),
    {
        FramePoint { x, y }
    }

    /// Explicit domain crossing: frame-local to root.
    pub fn to_root(self, frame_origin: RootPoint) -> (r: RootPoint)
        ensures
            r == frame_point_to_root(self, frame_origin),
    {
        RootPoint { x: sat_add(self.x, frame_origin.x), y: sat_add(self.y, frame_origin.y) }
    }
}

impl ClientLocalPoint {
    pub fn new(x: i32, y: i32) -> (r: Self)
        ensures
            r == (ClientLocalPoint { x, y }),
    {
        ClientLocalPoint { x, y }
    }
}

impl ClientLocalRect {
    pub fn new(x: i32, y: i32, w: i32, h: i32) -> (r: Self)
        ensures
            r == (ClientLocalRect { x, y, w, h }),
    {
        ClientLocalRect { x, y, w, h }
    }
}

impl ClientRootRect {
    pub fn new(x: i32, y: i32, w: i32, h: i32) -> (r: Self)
        ensures
            r == (ClientRootRect { x, y, w, h }),
    {
        ClientRootRect { x, y, w, h }
    }

    pub fn origin(self) -> (r: RootPoint)
        ensures
            r == (RootPoint { x: self.x, y: self.y }),
    {
        RootPoint { x: self.x, y: self.y }
    }

    /// Size as positive `u32`s: each extent raised to at least 1.
    pub fn size_u32(self) -> (r: (u32, u32))
        ensures
            r == (pos_size(self.w), pos_size(self.h)),
    {
        (pos_u32(self.w), pos_u32(self.h))
    }
}

impl RootRect {
    pub fn new(x: i32, y: i32, w: i32, h: i32) -> (r: Self)
        ensures
            r == (RootRect { x, y, w, h }),
    {
        RootRect { x, y, w, h }
    }

    /// Legacy frame `Rect` (u32 size) to a placement `RootRect`.
    pub fn from_legacy(rect: Rect) -> (r: Self)
        ensures
            r == legacy_to_root(rect),
    {
        let w: i32 = if rect.width > i32::MAX as u32 { i32::MAX } else { rect.width as i32 };
        let h: i32 = if rect.height > i32::MAX as u32 { i32::MAX } else { rect.height as i32 };
        RootRect { x: rect.x, y: rect.y, w, h }
    }

    /// Placement `RootRect` to a legacy frame `Rect`.
    pub fn to_legacy(self) -> (r: Rect)
        ensures
            r == root_to_legacy(self),
    {
        Rect::new(self.x, self.y, pos_u32(self.w), pos_u32(self.h))
    }

    pub fn origin(self) -> (r: RootPoint)
        ensures
            r == (RootPoint { x: self.x, y: self.y }),
    {
        RootPoint { x: self.x, y: self.y }
    }

    /// Explicit domain crossing: root to frame-local.
    pub fn to_frame(self, frame_origin: RootPoint) -> (r: FrameRect)
        ensures
            r == root_rect_to_frame(self, frame_origin),
    {
        FrameRect {
            x: sat_sub(self.x, frame_origin.x),
            y: sat_sub(self.y, frame_origin.y),
            w: self.w,
            h: self.h,
        }
    }
}

impl FrameRect {
    pub fn new(x: i32, y: i32, w: i32, h: i32) -> (r: Self)
        ensures
            r == (FrameRect { x, y, w, h }),
    {
        FrameRect { x, y, w, h }
    }

    /// Explicit domain crossing: frame-local to root.
    pub fn to_root(self, frame_origin: RootPoint) -> (r: RootRect)
        ensures
            r == frame_rect_to_root(self, frame_origin),
    {
        RootRect {
            x: sat_add(self.x, frame_origin.x),
            y: sat_add(self.y, frame_origin.y),
            w: self.w,
            h: self.h,
        }
    }
}

/// Law: crossing root to frame-local and back is the identity whenever the
/// offset from the origin fits in `i32`.
pub proof fn lemma_point_roundtrip(p: RootPoint, origin: RootPoint)
    requires
        i32::MIN <= p.x - origin.x <= i32::MAX,
        i32::MIN <= p.y - origin.y <= i32::MAX,
    ensures
        frame_point_to_root(root_point_to_frame(p, origin), origin) == p,
{
}

/// Law: the same round trip for rectangles; sizes are never touched.
pub proof fn lemma_rect_roundtrip(r: RootRect, origin: RootPoint)
    requires
        i32::MIN <= r.x - origin.x <= i32::MAX,
        i32::MIN <= r.y - origin.y <= i32::MAX,
    ensures
        frame_rect_to_root(root_rect_to_frame(r, origin), origin) == r,
        root_rect_to_frame(r, origin).w == r.w,
        root_rect_to_frame(r, origin).h == r.h,
{
}

/// Law: frame-local to root and back is the identity when the sum fits.
pub proof fn lemma_frame_rect_roundtrip(r: FrameRect, origin: RootPoint)
    requires
        i32::MIN <= r.x + origin.x <= i32::MAX,
        i32::MIN <= r.y + origin.y <= i32::MAX,
    ensures
        root_rect_to_frame(frame_rect_to_root(r, origin), origin) == r,
{
}

/// Law: a legacy rect with a positive size that fits `i32` survives the
/// round trip through `RootRect`, and a `RootRect` with positive extents
/// survives the opposite round trip.
pub proof fn lemma_legacy_roundtrip(r: Rect, rr: RootRect)
    ensures
        (1 <= r.width <= i32::MAX && 1 <= r.height <= i32::MAX) ==> root_to_legacy(
            legacy_to_root(r),
        ) == r,
        (rr.w >= 1 && rr.h >= 1) ==> legacy_to_root(root_to_legacy(rr)) == rr,
{
}

} // verus!
