//! Configure ownership: the client-request policy versus notify observation.
//!
//! ConfigureNotify handling only observes (classify and compare, never
//! commit geometry); ConfigureRequest handling owns accept or refuse:
//! exactly one frame commit on accept, a synthetic current-geometry notify
//! on refusal. Stack/sibling intent rides alongside and never flips the
//! decision.

use vstd::prelude::*;
use crate::arith::max_int;
use crate::frame::coords::{RootPoint, RootRect, pos_size, root_to_legacy};
use crate::frame::geometry::{
    FrameExtents, GeometryPlan, GeometryReason, GeometryRequest, configure_plan, frame_to_client_root,
    frame_to_root_client, plan_client_configure,
};
use crate::client::ManagedClient;
use crate::size_hints::{ClientSizeHints, hints_wf};
use crate::frame::model::{PlacementMode, PlacementSnapshot, PlacementState, ResizeEdges, edges};
use crate::frame::session::InteractionSession;
use crate::arith::{max_i32, sat_i32, sat_sub};

verus! {

/// Observation class of a ConfigureNotify event window.
#[derive(Debug, Clone, Copy, PartialEq, Eq, Structural)]
pub enum NotifyClass {
    SyntheticEchoDrop,
    FrameObserved,
    ClientObserved,
    InputChildObserved,
    StaleUnknown,
}

/// Synthetic echoes drop first, unknown windows are stale, then the frame,
/// the client and input children are told apart.
pub open spec fn classify_spec(
    window: u32,
    frame: u32,
    client: u32,
    is_input_child: bool,
    synthetic_echo: bool,
    known: bool,
) -> NotifyClass {
    if synthetic_echo {
        NotifyClass::SyntheticEchoDrop
    } else if !known {
        NotifyClass::StaleUnknown
    } else if window == frame {
        NotifyClass::FrameObserved
    } else if window == client {
        NotifyClass::ClientObserved
    } else if is_input_child {
        NotifyClass::InputChildObserved
    } else {
        NotifyClass::StaleUnknown
    }
}

/// Classify a notify by its window; observation never implies geometry.
pub fn classify_notify(
    window: u32,
    frame: u32,
    client: u32,
    is_input_child: bool,
    synthetic_echo: bool,
    known: bool,
) -> (r: NotifyClass)
    ensures
        r == classify_spec(window, frame, client, is_input_child, synthetic_echo, known),
{
    if synthetic_echo {
        return NotifyClass::SyntheticEchoDrop;
    }
    if !known {
        return NotifyClass::StaleUnknown;
    }
    if window == frame {
        return NotifyClass::FrameObserved;
    }
    if window == client {
        return NotifyClass::ClientObserved;
    }
    if is_input_child {
        return NotifyClass::InputChildObserved;
    }
    NotifyClass::StaleUnknown
}

/// Request policy decision: accept means exactly one frame commit; a
/// refusal owes a synthetic current-geometry notify instead.
#[derive(Debug, Clone, Copy, PartialEq, Eq, Structural)]
pub enum RequestDecision {
    AcceptOnce,
    RefuseInteractive,
    RefuseMode,
}

impl RequestDecision {
    pub fn needs_synthetic_notify(self) -> (r: bool)
        ensures
            r == !(self is AcceptOnce),
    {
        match self {
            RequestDecision::AcceptOnce => false,
            _ => true,
        }
    }

    pub fn geometry_effects(self) -> (r: usize)
        ensures
            r == (if self is AcceptOnce { 1usize } else { 0usize }),
    {
        match self {
            RequestDecision::AcceptOnce => 1,
            RequestDecision::RefuseInteractive | RequestDecision::RefuseMode => 0,
        }
    }
}

/// An active gesture wins over the mode; WM-owned modes refuse; only idle
/// and floating accepts.
pub open spec fn decide_spec(session: InteractionSession, mode: PlacementMode) -> RequestDecision {
    if !(session is Idle) {
        RequestDecision::RefuseInteractive
    } else if mode != PlacementMode::Floating {
        RequestDecision::RefuseMode
    } else {
        RequestDecision::AcceptOnce
    }
}

pub fn decide_request(session: &InteractionSession, mode: PlacementMode) -> (r: RequestDecision)
    ensures
        r == decide_spec(*session, mode),
{
    if !session.is_idle() {
        return RequestDecision::RefuseInteractive;
    }
    if let PlacementMode::Floating = mode {
        RequestDecision::AcceptOnce
    } else {
        RequestDecision::RefuseMode
    }
}

/// Law: a request is accepted exactly when no gesture is active and the
/// window floats, and an active gesture is refused as interactive whatever
/// the mode.
pub proof fn lemma_accept_only_idle_floating(session: InteractionSession, mode: PlacementMode)
    ensures
        (decide_spec(session, mode) is AcceptOnce) <==> (session is Idle && mode
            == PlacementMode::Floating),
        !(session is Idle) ==> decide_spec(session, mode) == RequestDecision::RefuseInteractive,
{
}

/// Outcome of comparing one notify observation with the expectation; it
/// carries no geometry effect by construction.
#[derive(Debug, Clone, Copy, PartialEq, Eq, Structural)]
pub enum Observation {
    Stale,
    Current,
    Mismatch,
}

/// A frame observation is current iff the root rect matches exactly.
pub fn observe_frame(expected: RootRect, observed: RootRect) -> (r: Observation)
    ensures
        r == (if observed == expected { Observation::Current } else { Observation::Mismatch }),
{
    if observed == expected {
        Observation::Current
    } else {
        Observation::Mismatch
    }
}

/// Expected client-local geometry for a frame: `(0, titlebar)` and the
/// interior size (each extent at least 1).
pub open spec fn expected_client_spec(frame: RootRect, ext: FrameExtents) -> (i32, i32, i32, i32) {
    (
        0i32,
        ext.titlebar_h,
        max_int(frame.w as int, 1) as i32,
        max_int(sat_i32(frame.h - ext.titlebar_h) as int, 1) as i32,
    )
}

pub fn expected_client_geometry(frame: RootRect, extents: FrameExtents) -> (r: (i32, i32, i32, i32))
    ensures
        r == expected_client_spec(frame, extents),
{
    let (ox, oy) = extents.client_offset();
    let expected_w = max_i32(frame.w, 1);
    let expected_h = max_i32(sat_sub(frame.h, extents.delta().1), 1);
    (ox, oy, expected_w, expected_h)
}

/// A client observation is current iff origin and interior size match.
pub fn observe_client(frame: RootRect, extents: FrameExtents, observed: (i32, i32, i32, i32)) -> (r:
    Observation)
    ensures
        r == (if observed == expected_client_spec(frame, extents) {
            Observation::Current
        } else {
            Observation::Mismatch
        }),
{
    let e = expected_client_geometry(frame, extents);
    if observed.0 == e.0 && observed.1 == e.1 && observed.2 == e.2 && observed.3 == e.3 {
        Observation::Current
    } else {
        Observation::Mismatch
    }
}

/// Synthetic ConfigureNotify payload: the current client-root geometry.
#[derive(Debug, Clone, Copy, PartialEq, Eq, Structural)]
pub struct SyntheticNotify {
    pub x: i32,
    pub y: i32,
    pub w: u32,
    pub h: u32,
}

/// The notify derived from the authoritative frame rect (extents raised
/// to at least 1), through the one client-root conversion.
pub open spec fn synthetic_spec(x: i32, y: i32, w: i32, h: i32, ext: FrameExtents) -> SyntheticNotify {
    let root = frame_to_root_client(
        RootRect { x, y, w: max_int(w as int, 1) as i32, h: max_int(h as int, 1) as i32 },
        ext,
    );
    SyntheticNotify { x: root.x, y: root.y, w: pos_size(root.w), h: pos_size(root.h) }
}

pub fn synthetic_notify_for(
    outer_x: i32,
    outer_y: i32,
    outer_w: i32,
    outer_h: i32,
    extents: FrameExtents,
) -> (r: SyntheticNotify)
    ensures
        r == synthetic_spec(outer_x, outer_y, outer_w, outer_h, extents),
{
    let root = frame_to_client_root(
        RootRect::new(outer_x, outer_y, max_i32(outer_w, 1), max_i32(outer_h, 1)),
        extents,
    );
    let (w, h) = root.size_u32();
    SyntheticNotify { x: root.x, y: root.y, w, h }
}

/// Stack/sibling intent is carried unchanged next to the decision.
pub fn carry_stack_intent(decision: RequestDecision, has_stack: bool) -> (r: (RequestDecision, bool))
    ensures
        r == (decision, has_stack),
{
    (decision, has_stack)
}

/// Client-root origin of a ConfigureRequest (ICCCM 4.1.5): request
/// coordinates are root coordinates; a missing axis keeps the previous
/// origin.
pub fn request_origin(has_x: bool, has_y: bool, req_x: i32, req_y: i32, prev: RootPoint) -> (r:
    RootPoint)
    ensures
        r == (RootPoint { x: if has_x { req_x } else { prev.x }, y: if has_y { req_y } else { prev.y } }),
{
    RootPoint::new(if has_x { req_x } else { prev.x }, if has_y { req_y } else { prev.y })
}

/// Requested client size of a ConfigureRequest: `None` when neither
/// dimension is in the mask; a missing dimension keeps the previous size
/// and a requested one is at least 1.
pub open spec fn request_size_spec(has_w: bool, has_h: bool, w: u16, h: u16, prev: (u32, u32)) -> Option<
    (u32, u32),
> {
    if has_w || has_h {
        Some(
            (
                if has_w { max_int(w as int, 1) as u32 } else { prev.0 },
                if has_h { max_int(h as int, 1) as u32 } else { prev.1 },
            ),
        )
    } else {
        None
    }
}

pub fn request_size(has_w: bool, has_h: bool, w: u16, h: u16, prev: (u32, u32)) -> (r: Option<(u32, u32)>)
    ensures
        r == request_size_spec(has_w, has_h, w, h, prev),
{
    if has_w || has_h {
        let ow: u32 = if has_w { if w >= 1 { w as u32 } else { 1 } } else { prev.0 };
        let oh: u32 = if has_h { if h >= 1 { h as u32 } else { 1 } } else { prev.1 };
        Some((ow, oh))
    } else {
        None
    }
}

/// The geometry request a ConfigureRequest makes against a placement.
pub open spec fn configure_request_of(
    placement: PlacementState,
    work_area: RootRect,
    hints: ClientSizeHints,
    extents: FrameExtents,
) -> GeometryRequest {
    GeometryRequest {
        reason: GeometryReason::ClientConfigure,
        start: PlacementSnapshot { mode: placement.mode, rect: placement.current },
        pointer_delta: (0i32, 0i32),
        edges: edges(false, false, false, false),
        work_area,
        hints,
        frame_extents: extents,
    }
}

/// Plan an accepted ConfigureRequest: the requested client-root origin
/// and size (missing fields keep the current client geometry) through the
/// client-configure planner.
pub fn plan_configure_request(
    placement: PlacementState,
    work_area: RootRect,
    hints: ClientSizeHints,
    extents: FrameExtents,
    has_x: bool,
    has_y: bool,
    x: i16,
    y: i16,
    has_w: bool,
    has_h: bool,
    w: u16,
    h: u16,
) -> (r: GeometryPlan)
    requires
        (has_w || has_h) && placement.mode != PlacementMode::Maximized && placement.mode
            != PlacementMode::Fullscreen ==> hints_wf(hints),
    ensures
        ({
            let prev = frame_to_root_client(placement.current, extents);
            let origin = RootPoint {
                x: if has_x { x as i32 } else { prev.x },
                y: if has_y { y as i32 } else { prev.y },
            };
            let size = request_size_spec(has_w, has_h, w, h, (pos_size(prev.w), pos_size(prev.h)));
            r == configure_plan(configure_request_of(placement, work_area, hints, extents), origin, size)
        }),
{
    let prev_root = frame_to_client_root(placement.current, extents);
    let prev_origin = prev_root.origin();
    let prev_size = prev_root.size_u32();
    let origin = request_origin(has_x, has_y, x as i32, y as i32, prev_origin);
    let size = request_size(has_w, has_h, w, h, prev_size);
    let req = GeometryRequest {
        reason: GeometryReason::ClientConfigure,
        start: PlacementSnapshot { mode: placement.mode, rect: placement.current },
        pointer_delta: (0, 0),
        edges: ResizeEdges::none(),
        work_area,
        hints,
        frame_extents: extents,
    };
    plan_client_configure(&req, origin, size)
}

/// Commit an accepted ConfigureRequest plan: the current rect (and,
/// while floating, the restore rect) become the planned frame and the
/// legacy mirror follows.
pub fn commit_configure(state: &mut ManagedClient, frame: RootRect)
    ensures
        *final(state) == (ManagedClient {
            placement: PlacementState {
                current: frame,
                floating_restore: if old(state).placement.mode == PlacementMode::Floating {
                    frame
                } else {
                    old(state).placement.floating_restore
                },
                ..old(state).placement
            },
            outer: root_to_legacy(frame),
            ..*old(state)
        }),
{
    state.placement.current = frame;
    if state.placement.mode == PlacementMode::Floating {
        state.placement.floating_restore = frame;
    }
    state.outer = frame.to_legacy();
}

} // verus!
