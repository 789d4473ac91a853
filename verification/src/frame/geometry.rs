//! Frame geometry planner: move, resize, client configure, initial map.
//!
//! Planners take a [`GeometryRequest`] (a placement snapshot plus a delta)
//! and return a [`GeometryPlan`]. Deltas are always relative to
//! `start.rect`, never incremental, so a drag can be replayed from its
//! snapshot. The client sits at `(0, titlebar)` inside the frame; the X
//! border is an outer property only.

use vstd::prelude::*;
use crate::arith::{
    clamp_i32, clamp_int, max_i32, max_int, max_u32, min_i32, min_int, nonneg_u32, pos_u32,
    sat_add, sat_add_u32, sat_i32, sat_sub, sat_u32, trunc_half, wrap_i32, wrap_u32_to_i32,
};
use crate::frame::coords::{
    ClientLocalRect, ClientRootRect, RootPoint, RootRect, pos_size,
};
use crate::frame::model::{PlacementMode, PlacementSnapshot, ResizeEdges};
use crate::size_hints::{
    ClientSizeHints, WinGravity, anchor_of, gravity_of, hints_wf, snap_client_size, snap_size,
};

verus! {

/// Why a geometry plan was requested.
#[derive(Debug, Clone, Copy, PartialEq, Eq, Structural, Hash)]
pub enum GeometryReason {
    InitialMap,
    InteractiveMove,
    InteractiveResize,
    ClientConfigure,
}

/// Frame chrome extents in pixels.
#[derive(Debug, Clone, Copy, PartialEq, Eq, Structural, Hash)]
pub struct FrameExtents {
    pub titlebar_h: i32,
    pub border: i32,
}

impl FrameExtents {
    pub fn new(titlebar_h: i32, border: i32) -> (r: Self)
        ensures
            r == (FrameExtents { titlebar_h, border }),
    {
        FrameExtents { titlebar_h, border }
    }

    /// Extra frame pixels over the client size: only the titlebar counts.
    pub fn delta(self) -> (r: (i32, i32))
        ensures
            r == (0i32, self.titlebar_h),
    {
        (0, self.titlebar_h)
    }

    /// Client origin inside the frame: `(0, titlebar)`.
    pub fn client_offset(self) -> (r: (i32, i32))
        ensures
            r == (0i32, self.titlebar_h),
    {
        (0, self.titlebar_h)
    }
}

/// Input to every planner.
#[derive(Debug, Clone, Copy, PartialEq, Eq)]
pub struct GeometryRequest {
    pub reason: GeometryReason,
    pub start: PlacementSnapshot,
    pub pointer_delta: (i32, i32),
    pub edges: ResizeEdges,
    pub work_area: RootRect,
    pub hints: ClientSizeHints,
    pub frame_extents: FrameExtents,
}

/// Planner output: frame rect plus the derived client geometry.
#[derive(Debug, Clone, Copy, PartialEq, Eq)]
pub struct GeometryPlan {
    pub frame: RootRect,
    /// Client origin inside the frame, `(0, titlebar)`.
    pub client_offset: (i32, i32),
    pub client_size: (u32, u32),
    /// True when the plan equals `start.rect`.
    pub noop: bool,
    pub keep_mode: PlacementMode,
}

/// The plan for a frame rect: client size is the frame minus the titlebar
/// (at least 1 each way), `noop` compares against the start rect.
pub open spec fn plan_of(req: GeometryRequest, frame: RootRect) -> GeometryPlan {
    GeometryPlan {
        frame,
        client_offset: (0i32, req.frame_extents.titlebar_h),
        client_size: (pos_size(frame.w), pos_size(sat_i32(frame.h - req.frame_extents.titlebar_h))),
        noop: frame == req.start.rect,
        keep_mode: req.start.mode,
    }
}

impl GeometryPlan {
    pub fn of(reason_start: &GeometryRequest, frame: RootRect) -> (r: Self)
        ensures
            r == plan_of(*reason_start, frame),
    {
        let (dw, dh) = reason_start.frame_extents.delta();
        let offset = reason_start.frame_extents.client_offset();
        let cw = pos_u32(sat_sub(frame.w, dw));
        let ch = pos_u32(sat_sub(frame.h, dh));
        let noop = frame == reason_start.start.rect;
        GeometryPlan {
            frame,
            client_offset: offset,
            client_size: (cw, ch),
            noop,
            keep_mode: reason_start.start.mode,
        }
    }
}

// ---- move ----

/// Move target: start plus delta, clamped so the top-left stays inside the
/// work area (an oversized frame pins to the work-area origin).
pub open spec fn move_frame(req: GeometryRequest) -> RootRect {
    let s = req.start.rect;
    let wa = req.work_area;
    let x = sat_i32(s.x + req.pointer_delta.0);
    let y = sat_i32(s.y + req.pointer_delta.1);
    let max_x = sat_i32(wa.x + max_int(sat_i32(wa.w - s.w) as int, 0));
    let max_y = sat_i32(wa.y + max_int(sat_i32(wa.h - s.h) as int, 0));
    RootRect {
        x: clamp_int(x as int, min_int(wa.x as int, max_x as int), max_int(max_x as int, wa.x as int))
            as i32,
        y: clamp_int(y as int, min_int(wa.y as int, max_y as int), max_int(max_y as int, wa.y as int))
            as i32,
        w: s.w,
        h: s.h,
    }
}

/// Interactive move.
pub fn plan_move(req: &GeometryRequest) -> (r: GeometryPlan)
    ensures
        r == plan_of(*req, move_frame(*req)),
{
    let s = req.start.rect;
    let wa = req.work_area;
    let x = sat_add(s.x, req.pointer_delta.0);
    let y = sat_add(s.y, req.pointer_delta.1);
    let max_x = sat_add(wa.x, max_i32(sat_sub(wa.w, s.w), 0));
    let max_y = sat_add(wa.y, max_i32(sat_sub(wa.h, s.h), 0));
    let x = clamp_i32(x, min_i32(wa.x, max_x), max_i32(max_x, wa.x));
    let y = clamp_i32(y, min_i32(wa.y, max_y), max_i32(max_y, wa.y));
    GeometryPlan::of(req, RootRect::new(x, y, s.w, s.h))
}

/// Law: a move keeps the frame size and, when the frame fits the work area
/// and nothing saturates, lands at start plus delta clamped inside it.
pub proof fn lemma_move_stays_inside(req: GeometryRequest)
    requires
        req.start.rect.w <= req.work_area.w,
        req.start.rect.h <= req.work_area.h,
        0 <= req.start.rect.w,
        0 <= req.start.rect.h,
        req.work_area.x + req.work_area.w <= i32::MAX,
        req.work_area.y + req.work_area.h <= i32::MAX,
        i32::MIN <= req.work_area.w - req.start.rect.w,
        i32::MIN <= req.work_area.h - req.start.rect.h,
    ensures
        ({
            let f = move_frame(req);
            &&& f.w == req.start.rect.w
            &&& f.h == req.start.rect.h
            &&& req.work_area.x <= f.x
            &&& f.x + f.w <= req.work_area.x + req.work_area.w
            &&& req.work_area.y <= f.y
            &&& f.y + f.h <= req.work_area.y + req.work_area.h
        }),
{
}

// ---- resize ----

/// The clamps of [`plan_resize`] need ordered bounds (as `i32::clamp`
/// does): a dragged edge's work-area bound and its 1-pixel bound from the
/// fixed edge must not cross.
pub open spec fn resize_clamps_ok(req: GeometryRequest) -> bool {
    let s = req.start.rect;
    let wa = req.work_area;
    let fixed_right = sat_i32(s.x + s.w);
    let fixed_bottom = sat_i32(s.y + s.h);
    &&& req.edges.left ==> wa.x <= sat_i32(fixed_right - 1)
    &&& req.edges.right ==> sat_i32(s.x + 1) <= sat_i32(wa.x + wa.w)
    &&& req.edges.top ==> wa.y <= sat_i32(fixed_bottom - 1)
    &&& req.edges.bottom ==> sat_i32(s.y + 1) <= sat_i32(wa.y + wa.h)
}

/// Raw frame extent along one axis before the size policy: the distance
/// from the fixed edge to the dragged edge, the dragged edge clamped to the
/// work area and to one pixel from the fixed edge.
pub open spec fn resize_raw_extent(
    lo_drag: bool,
    hi_drag: bool,
    start_pos: i32,
    start_len: i32,
    delta: i32,
    wa_pos: i32,
    wa_len: i32,
) -> int {
    let fixed_lo = start_pos as int;
    let fixed_hi = sat_i32(start_pos + start_len) as int;
    let wa_hi = sat_i32(wa_pos + wa_len) as int;
    let moving_lo = clamp_int(sat_i32(start_pos + delta) as int, wa_pos as int, sat_i32(fixed_hi - 1) as int);
    let moving_hi = clamp_int(sat_i32(fixed_hi + delta) as int, sat_i32(fixed_lo + 1) as int, wa_hi);
    max_int(
        if lo_drag {
            sat_i32(fixed_hi - moving_lo) as int
        } else if hi_drag {
            sat_i32(moving_hi - fixed_lo) as int
        } else {
            start_len as int
        },
        1,
    )
}

/// The client size asked of the policy for a raw frame extent.
pub open spec fn raw_client(raw: int, extra: i32) -> int {
    max_int(sat_i32(raw - extra) as int, 1)
}

/// The outer extent for a constrained client extent: client plus the
/// nonnegative frame extra, saturated, at least 1, read back as `i32`.
pub open spec fn outer_extent(client: u32, extra: i32) -> i32 {
    wrap_i32(max_int(sat_u32(client + max_int(extra as int, 0)) as int, 1) as u32)
}

/// Resize target: the edges opposite the drag stay where `start.rect` had
/// them, the dragged edges move by the delta within the work area, the
/// client size goes through the size policy, and the dragged edge is
/// rebuilt from the fixed edge and the constrained size.
pub open spec fn resize_frame(req: GeometryRequest) -> RootRect {
    let s = req.start.rect;
    let e = req.edges;
    let dh = req.frame_extents.titlebar_h;
    let raw_w = resize_raw_extent(e.left, e.right, s.x, s.w, req.pointer_delta.0, req.work_area.x, req.work_area.w);
    let raw_h = resize_raw_extent(e.top, e.bottom, s.y, s.h, req.pointer_delta.1, req.work_area.y, req.work_area.h);
    let c = snap_size(raw_client(raw_w, 0), raw_client(raw_h, dh), req.hints);
    let outer_w = outer_extent(c.0, 0);
    let outer_h = outer_extent(c.1, dh);
    let fixed_right = sat_i32(s.x + s.w);
    let fixed_bottom = sat_i32(s.y + s.h);
    let x = if e.left { sat_i32(fixed_right - outer_w) } else { s.x };
    let y = if e.top { sat_i32(fixed_bottom - outer_h) } else { s.y };
    let w = if e.left || e.right { outer_w } else { s.w };
    let h = if e.top || e.bottom { outer_h } else { s.h };
    RootRect { x, y, w: max_int(w as int, 1) as i32, h: max_int(h as int, 1) as i32 }
}

fn raw_extent_exec(
    lo_drag: bool,
    hi_drag: bool,
    start_pos: i32,
    start_len: i32,
    delta: i32,
    wa_pos: i32,
    wa_len: i32,
) -> (r: i32)
    requires
        lo_drag ==> wa_pos <= sat_i32(sat_i32(start_pos + start_len) - 1),
        hi_drag ==> sat_i32(start_pos + 1) <= sat_i32(wa_pos + wa_len),
    ensures
        r == resize_raw_extent(lo_drag, hi_drag, start_pos, start_len, delta, wa_pos, wa_len),
{
    let fixed_lo = start_pos;
    let fixed_hi = sat_add(start_pos, start_len);
    let wa_hi = sat_add(wa_pos, wa_len);
    let mut moving_lo = sat_add(start_pos, delta);
    let mut moving_hi = sat_add(fixed_hi, delta);
    if lo_drag {
        moving_lo = clamp_i32(moving_lo, wa_pos, sat_sub(fixed_hi, 1));
    }
    if hi_drag {
        moving_hi = clamp_i32(moving_hi, sat_add(fixed_lo, 1), wa_hi);
    }
    let raw = if lo_drag {
        sat_sub(fixed_hi, moving_lo)
    } else if hi_drag {
        sat_sub(moving_hi, fixed_lo)
    } else {
        start_len
    };
    max_i32(raw, 1)
}

fn outer_extent_exec(client: u32, extra: i32) -> (r: i32)
    ensures
        r == outer_extent(client, extra),
{
    wrap_u32_to_i32(max_u32(sat_add_u32(client, nonneg_u32(extra)), 1))
}

/// Interactive resize with fixed opposite edges.
pub fn plan_resize(req: &GeometryRequest) -> (r: GeometryPlan)
    requires
        hints_wf(req.hints),
        resize_clamps_ok(*req),
    ensures
        r == plan_of(*req, resize_frame(*req)),
{
    let s = req.start.rect;
    let e = req.edges;
    let (dw, dh) = req.frame_extents.delta();
    let raw_w = raw_extent_exec(e.left, e.right, s.x, s.w, req.pointer_delta.0, req.work_area.x, req.work_area.w);
    let raw_h = raw_extent_exec(e.top, e.bottom, s.y, s.h, req.pointer_delta.1, req.work_area.y, req.work_area.h);
    let raw_cw = pos_u32(sat_sub(raw_w, dw));
    let raw_ch = pos_u32(sat_sub(raw_h, dh));
    let (ccw, cch) = snap_client_size(raw_cw, raw_ch, &req.hints);
    let outer_w = outer_extent_exec(ccw, dw);
    let outer_h = outer_extent_exec(cch, dh);
    let fixed_right = sat_add(s.x, s.w);
    let fixed_bottom = sat_add(s.y, s.h);
    let x = if e.left { sat_sub(fixed_right, outer_w) } else { s.x };
    let y = if e.top { sat_sub(fixed_bottom, outer_h) } else { s.y };
    let w = if e.left || e.right { outer_w } else { s.w };
    let h = if e.top || e.bottom { outer_h } else { s.h };
    GeometryPlan::of(req, RootRect::new(x, y, max_i32(w, 1), max_i32(h, 1)))
}

/// Magnitude bound under which no resize coordinate saturates.
pub open spec fn small(v: int) -> bool {
    -0x1000_0000 <= v <= 0x1000_0000
}

/// Law: a resize never moves the edges opposite the drag. Dragging the
/// left edge keeps the right edge (also when the right edge is marked too,
/// the left one leads), dragging only the right edge keeps the left edge,
/// and an undragged axis keeps its start position and size; the same holds
/// vertically, and the axes combine freely (corner drags). Stated for
/// coordinates, deltas and hint sizes up to `2^28` in magnitude, where
/// nothing saturates.
pub proof fn lemma_resize_fixed_edges(req: GeometryRequest)
    requires
        hints_wf(req.hints),
        small(req.start.rect.x as int),
        small(req.start.rect.y as int),
        0 <= req.start.rect.w <= 0x1000_0000,
        0 <= req.start.rect.h <= 0x1000_0000,
        small(req.work_area.x as int),
        small(req.work_area.y as int),
        0 <= req.work_area.w <= 0x1000_0000,
        0 <= req.work_area.h <= 0x1000_0000,
        small(req.pointer_delta.0 as int),
        small(req.pointer_delta.1 as int),
        0 <= req.frame_extents.titlebar_h <= 0x1000_0000,
        req.hints.min is Some ==> req.hints.min.unwrap().0 <= 0x1000_0000
            && req.hints.min.unwrap().1 <= 0x1000_0000,
        req.hints.base is Some ==> req.hints.base.unwrap().0 <= 0x1000_0000
            && req.hints.base.unwrap().1 <= 0x1000_0000,
    ensures
        ({
            let s = req.start.rect;
            let e = req.edges;
            let f = resize_frame(req);
            &&& e.left ==> f.x + f.w == s.x + s.w
            &&& (e.right && !e.left) ==> f.x == s.x
            &&& (!e.left && !e.right) ==> f.x == s.x && (s.w >= 1 ==> f.w == s.w)
            &&& e.top ==> f.y + f.h == s.y + s.h
            &&& (e.bottom && !e.top) ==> f.y == s.y
            &&& (!e.top && !e.bottom) ==> f.y == s.y && (s.h >= 1 ==> f.h == s.h)
            &&& f.w >= 1
            &&& f.h >= 1
        }),
{
    let s = req.start.rect;
    let e = req.edges;
    let dh = req.frame_extents.titlebar_h;
    let raw_w = resize_raw_extent(e.left, e.right, s.x, s.w, req.pointer_delta.0, req.work_area.x, req.work_area.w);
    let raw_h = resize_raw_extent(e.top, e.bottom, s.y, s.h, req.pointer_delta.1, req.work_area.y, req.work_area.h);
    let cw = raw_client(raw_w, 0);
    let ch = raw_client(raw_h, dh);
    assert(1 <= cw <= u32::MAX);
    assert(1 <= ch <= u32::MAX);
    crate::size_hints::lemma_snap_upper_bound(cw as u32, ch as u32, req.hints);
}

// ---- gravity and domain conversions ----

/// The shift of an origin when a size changes under an anchor `a / 2`:
/// `(old - new) * a / 2` rounded toward zero, 0 when out of `i32` range.
pub open spec fn gravity_shift(old: u32, new: u32, a: i32) -> i32 {
    let q = trunc_half((old - new) * a);
    if i32::MIN <= q <= i32::MAX { q as i32 } else { 0 }
}

/// The origin after a size change under `gravity`: the reference point
/// `origin + anchor * size / 2` stays put; `Static` keeps the origin.
pub open spec fn gravity_origin(
    origin: RootPoint,
    old_size: (u32, u32),
    new_size: (u32, u32),
    gravity: WinGravity,
) -> RootPoint {
    if gravity == WinGravity::Static {
        origin
    } else {
        let (ax, ay) = anchor_of(gravity);
        RootPoint {
            x: sat_i32(origin.x + gravity_shift(old_size.0, new_size.0, ax)),
            y: sat_i32(origin.y + gravity_shift(old_size.1, new_size.1, ay)),
        }
    }
}

fn shift_exec(old: u32, new: u32, a: i32) -> (r: i32)
    requires
        0 <= a <= 2,
    ensures
        r == gravity_shift(old, new, a),
{
    let delta: i64 = old as i64 - new as i64;
    let p: i64 = if a == 0 { 0 } else if a == 1 { delta } else { delta + delta };
    assert(p == delta * a) by (nonlinear_arith)
        requires
            0 <= a <= 2,
            a == 0 ==> p == 0,
            a == 1 ==> p == delta,
            a == 2 ==> p == delta + delta,
    ;
    let q: i64 = if p >= 0 { p / 2 } else { -((-p) / 2) };
    if q >= i32::MIN as i64 && q <= i32::MAX as i64 {
        q as i32
    } else {
        0
    }
}

/// Adjust a client origin for a size change under `gravity`.
pub fn gravity_adjust_origin(
    old_origin: RootPoint,
    old_size: (u32, u32),
    new_size: (u32, u32),
    gravity: WinGravity,
) -> (r: RootPoint)
    ensures
        r == gravity_origin(old_origin, old_size, new_size, gravity),
{
    if gravity == WinGravity::Static {
        return old_origin;
    }
    let (ax, ay) = gravity.anchor_num();
    RootPoint::new(
        sat_add(old_origin.x, shift_exec(old_size.0, new_size.0, ax)),
        sat_add(old_origin.y, shift_exec(old_size.1, new_size.1, ay)),
    )
}

/// Law: the gravity reference point is preserved exactly when the size
/// change is even along the anchored axis and nothing saturates; in
/// particular `SouthEast` keeps the bottom-right corner and `NorthWest`
/// keeps the origin.
pub proof fn lemma_gravity_reference_point(
    origin: RootPoint,
    old_size: (u32, u32),
    new_size: (u32, u32),
    gravity: WinGravity,
)
    requires
        gravity != WinGravity::Static,
        ((old_size.0 - new_size.0) * anchor_of(gravity).0) % 2 == 0,
        ((old_size.1 - new_size.1) * anchor_of(gravity).1) % 2 == 0,
        i32::MIN <= origin.x + (old_size.0 - new_size.0) <= i32::MAX,
        i32::MIN <= origin.y + (old_size.1 - new_size.1) <= i32::MAX,
        -0x4000_0000 <= old_size.0 - new_size.0 <= 0x4000_0000,
        -0x4000_0000 <= old_size.1 - new_size.1 <= 0x4000_0000,
        i32::MIN <= origin.x - 0x4000_0000,
        origin.x + 0x4000_0000 <= i32::MAX,
        i32::MIN <= origin.y - 0x4000_0000,
        origin.y + 0x4000_0000 <= i32::MAX,
    ensures
        ({
            let n = gravity_origin(origin, old_size, new_size, gravity);
            let (ax, ay) = anchor_of(gravity);
            &&& 2 * n.x + ax * new_size.0 == 2 * origin.x + ax * old_size.0
            &&& 2 * n.y + ay * new_size.1 == 2 * origin.y + ay * old_size.1
        }),
{
    let (ax, ay) = anchor_of(gravity);
    let dx = old_size.0 - new_size.0;
    let dy = old_size.1 - new_size.1;
    assert(2 * trunc_half(dx * ax) == dx * ax) by {
        assert(0 <= ax <= 2);
        assert(dx * ax == 0 || dx * ax == dx || dx * ax == 2 * dx) by (nonlinear_arith)
            requires
                0 <= ax <= 2,
        ;
    }
    assert(2 * trunc_half(dy * ay) == dy * ay) by {
        assert(dy * ay == 0 || dy * ay == dy || dy * ay == 2 * dy) by (nonlinear_arith)
            requires
                0 <= ay <= 2,
        ;
    }
    assert(ax * new_size.0 - ax * old_size.0 == -(dx * ax)) by (nonlinear_arith)
        requires
            dx == old_size.0 - new_size.0,
    ;
    assert(ay * new_size.1 - ay * old_size.1 == -(dy * ay)) by (nonlinear_arith)
        requires
            dy == old_size.1 - new_size.1,
    ;
}

/// Client rect (root coordinates) to outer frame rect.
pub open spec fn client_to_frame(origin: RootPoint, size: (u32, u32), ext: FrameExtents) -> RootRect {
    RootRect {
        x: origin.x,
        y: sat_i32(origin.y - ext.titlebar_h),
        w: outer_extent(size.0, 0),
        h: outer_extent(size.1, ext.titlebar_h),
    }
}

/// Outer frame rect to client-local rect: origin `(0, titlebar)`, size
/// `(frame.w, frame.h - titlebar)` with the height at least 1.
pub open spec fn frame_to_local(frame: RootRect, ext: FrameExtents) -> ClientLocalRect {
    ClientLocalRect {
        x: 0,
        y: ext.titlebar_h,
        w: frame.w,
        h: max_int(sat_i32(frame.h - ext.titlebar_h) as int, 1) as i32,
    }
}

/// Outer frame rect to the synthetic client-root rect.
pub open spec fn frame_to_root_client(frame: RootRect, ext: FrameExtents) -> ClientRootRect {
    let local = frame_to_local(frame, ext);
    ClientRootRect {
        x: frame.x,
        y: sat_i32(frame.y + ext.titlebar_h),
        w: local.w,
        h: local.h,
    }
}

pub fn client_rect_to_frame(
    client_origin: RootPoint,
    client_size: (u32, u32),
    extents: FrameExtents,
) -> (r: RootRect)
    ensures
        r == client_to_frame(client_origin, client_size, extents),
{
    let (dw, dh) = extents.delta();
    let (ox, oy) = extents.client_offset();
    RootRect::new(
        sat_sub(client_origin.x, ox),
        sat_sub(client_origin.y, oy),
        outer_extent_exec(client_size.0, dw),
        outer_extent_exec(client_size.1, dh),
    )
}

pub fn frame_to_client_local(frame: RootRect, extents: FrameExtents) -> (r: ClientLocalRect)
    ensures
        r == frame_to_local(frame, extents),
{
    let (_, dh) = extents.delta();
    let (ox, oy) = extents.client_offset();
    ClientLocalRect::new(ox, oy, frame.w, max_i32(sat_sub(frame.h, dh), 1))
}

pub fn frame_to_client_root(frame: RootRect, extents: FrameExtents) -> (r: ClientRootRect)
    ensures
        r == frame_to_root_client(frame, extents),
{
    let local = frame_to_client_local(frame, extents);
    let (ox, oy) = extents.client_offset();
    ClientRootRect::new(sat_add(frame.x, ox), sat_add(frame.y, oy), local.w, local.h)
}

/// Law: a frame rect with positive extents, a client area at least one
/// pixel tall and no saturation survives the trip to the client-root rect
/// and back.
pub proof fn lemma_client_frame_roundtrip(frame: RootRect, ext: FrameExtents)
    requires
        frame.w >= 1,
        ext.titlebar_h >= 0,
        frame.h - ext.titlebar_h >= 1,
        frame.y + ext.titlebar_h <= i32::MAX,
    ensures
        ({
            let root = frame_to_root_client(frame, ext);
            client_to_frame(
                RootPoint { x: root.x, y: root.y },
                (pos_size(root.w), pos_size(root.h)),
                ext,
            ) == frame
        }),
{
}

// ---- client configure and initial map ----

/// The frame rect a client configure request asks for (for non-owned
/// modes): the requested size through the size policy with the origin moved
/// by gravity, or the requested origin at the current size.
pub open spec fn configure_frame(
    req: GeometryRequest,
    origin: RootPoint,
    size: Option<(u32, u32)>,
) -> RootRect {
    let prev_root = frame_to_root_client(req.start.rect, req.frame_extents);
    let prev_size = (pos_size(prev_root.w), pos_size(prev_root.h));
    let prev_origin = RootPoint { x: prev_root.x, y: prev_root.y };
    match size {
        Some((w, h)) => {
            let new_size = snap_size(max_int(w as int, 1), max_int(h as int, 1), req.hints);
            client_to_frame(
                gravity_origin(prev_origin, prev_size, new_size, gravity_of(req.hints)),
                new_size,
                req.frame_extents,
            )
        },
        None => client_to_frame(origin, prev_size, req.frame_extents),
    }
}

/// What [`plan_client_configure`] returns: maximized and fullscreen frames
/// keep the start rect (a no-op), other modes take the requested geometry.
pub open spec fn configure_plan(
    req: GeometryRequest,
    origin: RootPoint,
    size: Option<(u32, u32)>,
) -> GeometryPlan {
    match req.start.mode {
        PlacementMode::Maximized | PlacementMode::Fullscreen => GeometryPlan {
            noop: true,
            ..plan_of(req, req.start.rect)
        },
        _ => plan_of(req, configure_frame(req, origin, size)),
    }
}

/// Client configure request.
pub fn plan_client_configure(
    req: &GeometryRequest,
    req_client_origin: RootPoint,
    req_client_size: Option<(u32, u32)>,
) -> (r: GeometryPlan)
    requires
        req_client_size is Some && req.start.mode != PlacementMode::Maximized && req.start.mode
            != PlacementMode::Fullscreen ==> hints_wf(req.hints),
    ensures
        r == configure_plan(*req, req_client_origin, req_client_size),
{
    match req.start.mode {
        PlacementMode::Maximized | PlacementMode::Fullscreen => {
            let mut plan = GeometryPlan::of(req, req.start.rect);
            plan.noop = true;
            return plan;
        },
        PlacementMode::Floating | PlacementMode::Snapped(_) => {},
    }
    let gravity = WinGravity::of(&req.hints);
    let prev_root = frame_to_client_root(req.start.rect, req.frame_extents);
    let prev_size = prev_root.size_u32();
    let prev_origin = prev_root.origin();
    let origin;
    let new_size;
    match req_client_size {
        Some((w, h)) => {
            new_size = snap_client_size(max_u32(w, 1), max_u32(h, 1), &req.hints);
            origin = gravity_adjust_origin(prev_origin, prev_size, new_size, gravity);
        },
        None => {
            new_size = prev_size;
            origin = req_client_origin;
        },
    }
    GeometryPlan::of(req, client_rect_to_frame(origin, new_size, req.frame_extents))
}

/// Initial map target: the requested client rect through the size policy
/// and gravity, converted to a frame and clamped inside the work area.
pub open spec fn initial_map_frame(req: GeometryRequest, origin: RootPoint, size: (u32, u32)) -> RootRect {
    let s = snap_size(max_int(size.0 as int, 1), max_int(size.1 as int, 1), req.hints);
    let o = gravity_origin(origin, s, s, gravity_of(req.hints));
    let f = client_to_frame(o, s, req.frame_extents);
    let wa = req.work_area;
    RootRect {
        x: clamp_int(f.x as int, wa.x as int, sat_i32(wa.x + max_int(sat_i32(wa.w - f.w) as int, 0)) as int) as i32,
        y: clamp_int(f.y as int, wa.y as int, sat_i32(wa.y + max_int(sat_i32(wa.h - f.h) as int, 0)) as int) as i32,
        w: f.w,
        h: f.h,
    }
}

/// Initial map.
pub fn plan_initial_map(
    req: &GeometryRequest,
    req_client_origin: RootPoint,
    req_client_size: (u32, u32),
) -> (r: GeometryPlan)
    requires
        hints_wf(req.hints),
    ensures
        r == plan_of(*req, initial_map_frame(*req, req_client_origin, req_client_size)),
{
    let gravity = WinGravity::of(&req.hints);
    let size = snap_client_size(max_u32(req_client_size.0, 1), max_u32(req_client_size.1, 1), &req.hints);
    let origin = gravity_adjust_origin(req_client_origin, size, size, gravity);
    let frame = client_rect_to_frame(origin, size, req.frame_extents);
    let wa = req.work_area;
    let x = clamp_i32(frame.x, wa.x, sat_add(wa.x, max_i32(sat_sub(wa.w, frame.w), 0)));
    let y = clamp_i32(frame.y, wa.y, sat_add(wa.y, max_i32(sat_sub(wa.h, frame.h), 0)));
    GeometryPlan::of(req, RootRect::new(x, y, frame.w, frame.h))
}

} // verus!
