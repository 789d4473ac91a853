//! Frame controller: one input event to the next state and an effect plan.
//!
//! Composes the registry view (the source XID decides the target), the
//! interaction session and the geometry planners into one state change per
//! event, plus the ordered list of native effects the window manager
//! applies.

use vstd::prelude::*;
use std::collections::HashMap;
use crate::arith::{
    clamp_i32, clamp_int, max_i32, max_int, pos_u32, sat_add, sat_i32, sat_sub, trunc_half,
};
use crate::cursor::CursorKind;
use crate::frame::coords::{ClientRootRect, RootPoint, RootRect, pos_size};
use crate::frame::geometry::{
    FrameExtents, GeometryPlan, GeometryReason, GeometryRequest, configure_plan,
    frame_to_client_local, frame_to_client_root, frame_to_local, frame_to_root_client, move_frame,
    plan_client_configure, plan_move, plan_of, plan_resize, resize_clamps_ok, resize_frame,
};
use crate::frame::input::{region_for, target_for_xid};
use crate::frame::layout::TITLEBAR_H;
use crate::frame::model::{
    FrameControl, FrameRegion, PlacementMode, PlacementSnapshot, PlacementState, ResizeEdges,
    SnapTarget, edges,
};
use crate::frame::resources::{cursor_for_region, cursor_region_spec};
use crate::frame::session::{
    ControlPressSession, InteractionSession, MoveAnchor, MoveSession, ResizeSession,
    maximized_restore_rect, restore_rect,
};
use crate::size_hints::{ClientSizeHints, hints_wf};

verus! {

broadcast use vstd::std_specs::hash::group_hash_axioms;

/// Native effect intents, executed by the window manager.
///
/// `ConfigureClientLocal` carries client-local geometry (origin
/// `(0, titlebar)` plus the client size); `ConfigureFrameRoot` the frame
/// outer rect in root coordinates; `MoveFrameRoot` a position-only frame
/// origin (a move cannot resize); `NotifyClientRoot` the synthetic
/// client-root rect.
#[allow(inconsistent_fields)]
#[derive(Debug, Clone, Copy, PartialEq, Eq, Structural, Hash)]
pub enum FrameEffect {
    Grab { window: u32, cursor: CursorKind },
    Ungrab,
    ConfigureFrameRoot { x: i32, y: i32, w: i32, h: i32 },
    MoveFrameRoot { x: i32, y: i32 },
    ConfigureClientLocal { x: i32, y: i32, w: u32, h: u32 },
    LayoutInput,
    PaintChrome,
    ApplyShape,
    NotifyClientRoot { x: i32, y: i32, w: u32, h: u32 },
    SnapPreview { target: Option<SnapTarget> },
    Noop,
}

/// Controller state: session, placement, registry view and geometry
/// context.
#[derive(Debug, Clone)]
pub struct ControllerState {
    pub session: InteractionSession,
    pub placement: PlacementState,
    pub registry: HashMap<u32, FrameRegion>,
    pub client: u32,
    pub grab: u32,
    pub work_area: RootRect,
    pub screen_rect: RootRect,
    pub hints: ClientSizeHints,
    pub extents: FrameExtents,
}

/// Mathematical model of a [`ControllerState`]: the registry as a map.
pub struct ControllerView {
    pub session: InteractionSession,
    pub placement: PlacementState,
    pub registry: Map<u32, FrameRegion>,
    pub client: u32,
    pub grab: u32,
    pub work_area: RootRect,
    pub screen_rect: RootRect,
    pub hints: ClientSizeHints,
    pub extents: FrameExtents,
}

impl View for ControllerState {
    type V = ControllerView;

    open spec fn view(&self) -> ControllerView {
        ControllerView {
            session: self.session,
            placement: self.placement,
            registry: self.registry@,
            client: self.client,
            grab: self.grab,
            work_area: self.work_area,
            screen_rect: self.screen_rect,
            hints: self.hints,
            extents: self.extents,
        }
    }
}

impl ControllerState {
    /// Idle controller with an empty registry; the screen rect starts as
    /// the work area.
    pub fn new(
        client: u32,
        grab: u32,
        placement: PlacementState,
        work_area: RootRect,
        hints: ClientSizeHints,
        extents: FrameExtents,
    ) -> (r: Self)
        ensures
            r@ == (ControllerView {
                session: InteractionSession::Idle,
                placement,
                registry: Map::empty(),
                client,
                grab,
                work_area,
                screen_rect: work_area,
                hints,
                extents,
            }),
    {
        ControllerState {
            session: InteractionSession::Idle,
            placement,
            registry: HashMap::new(),
            client,
            grab,
            work_area,
            screen_rect: work_area,
            hints,
            extents,
        }
    }

    pub fn with_screen_rect(self, screen_rect: RootRect) -> (r: Self)
        ensures
            r@ == (ControllerView { screen_rect, ..self@ }),
    {
        let mut s = self;
        s.screen_rect = screen_rect;
        s
    }

    pub fn with_registry(self, registry: HashMap<u32, FrameRegion>) -> (r: Self)
        ensures
            r@ == (ControllerView { registry: registry@, ..self@ }),
    {
        let mut s = self;
        s.registry = registry;
        s
    }
}

/// One input event per reducer step.
#[derive(Debug, Clone, Copy, PartialEq, Eq, Hash)]
pub enum FrameEvent {
    Press { source: u32, pointer: RootPoint },
    Motion { pointer: RootPoint },
    Release { pointer: RootPoint },
    Enter,
    Leave,
    /// A ConfigureRequest from the client window: client-root geometry
    /// intent, never the frame rect and never a notify observation.
    ClientConfigureRequest { root_origin: RootPoint, size: Option<(u32, u32)> },
    Snap { target: SnapTarget },
    ToggleMax,
    ToggleFullscreen,
    Cancel,
}

// ---- specification ----

pub open spec fn request_spec(
    s: ControllerView,
    reason: GeometryReason,
    start: PlacementSnapshot,
    delta: (i32, i32),
    e: ResizeEdges,
) -> GeometryRequest {
    GeometryRequest {
        reason,
        start,
        pointer_delta: delta,
        edges: e,
        work_area: s.work_area,
        hints: s.hints,
        frame_extents: s.extents,
    }
}

/// Full configure: frame root rect, client-local size, client-root notify.
pub open spec fn configure_effects_spec(frame: RootRect, ext: FrameExtents) -> Seq<FrameEffect> {
    let local = frame_to_local(frame, ext);
    let root = frame_to_root_client(frame, ext);
    seq![
        FrameEffect::ConfigureFrameRoot { x: frame.x, y: frame.y, w: frame.w, h: frame.h },
        FrameEffect::ConfigureClientLocal { x: local.x, y: local.y, w: pos_size(local.w), h: pos_size(local.h) },
        FrameEffect::NotifyClientRoot { x: root.x, y: root.y, w: pos_size(root.w), h: pos_size(root.h) },
    ]
}

/// Move: position-only frame origin plus the client-root notify.
pub open spec fn move_effects_spec(frame: RootRect, ext: FrameExtents) -> Seq<FrameEffect> {
    let root = frame_to_root_client(frame, ext);
    seq![
        FrameEffect::MoveFrameRoot { x: frame.x, y: frame.y },
        FrameEffect::NotifyClientRoot { x: root.x, y: root.y, w: pos_size(root.w), h: pos_size(root.h) },
    ]
}

pub open spec fn chrome_effects() -> Seq<FrameEffect> {
    seq![FrameEffect::LayoutInput, FrameEffect::PaintChrome, FrameEffect::ApplyShape]
}

pub open spec fn noop_plan() -> Seq<FrameEffect> {
    seq![FrameEffect::Noop]
}

/// The work-area half or quarter a snap target names (halves rounded
/// toward zero, at least 1).
pub open spec fn snap_rect_spec(wa: RootRect, target: SnapTarget) -> RootRect {
    let hw = max_int(trunc_half(wa.w as int), 1);
    let hh = max_int(trunc_half(wa.h as int), 1);
    let rx = sat_i32(wa.x + sat_i32(wa.w - hw)) as int;
    let by = sat_i32(wa.y + sat_i32(wa.h - hh)) as int;
    let (x, y, w, h) = match target {
        SnapTarget::Left => (wa.x as int, wa.y as int, hw, wa.h as int),
        SnapTarget::Right => (rx, wa.y as int, hw, wa.h as int),
        SnapTarget::Top => (wa.x as int, wa.y as int, wa.w as int, hh),
        SnapTarget::Bottom => (wa.x as int, by, wa.w as int, hh),
        SnapTarget::TopLeft => (wa.x as int, wa.y as int, hw, hh),
        SnapTarget::TopRight => (rx, wa.y as int, hw, hh),
        SnapTarget::BottomLeft => (wa.x as int, by, hw, hh),
        SnapTarget::BottomRight => (rx, by, hw, hh),
    };
    RootRect { x: x as i32, y: y as i32, w: w as i32, h: h as i32 }
}

/// Pointer anchor inside a rect: horizontal fraction `num / max(w, 1)`
/// with `num` clamped into `0..=w`, vertical offset clamped into the
/// titlebar.
pub open spec fn move_anchor_spec(pointer: RootPoint, rect: RootRect) -> MoveAnchor {
    MoveAnchor {
        frac_num: clamp_int(sat_i32(pointer.x - rect.x) as int, 0, max_int(rect.w as int, 0)) as u32,
        frac_den: max_int(rect.w as int, 1) as u32,
        vertical_offset: clamp_int(sat_i32(pointer.y - rect.y) as int, 0, 31) as i32,
        activated: false,
    }
}

pub open spec fn move_delta_spec(start: RootPoint, current: RootPoint) -> (i32, i32) {
    (sat_i32(current.x - start.x), sat_i32(current.y - start.y))
}

/// A move activates once the pointer is 4 pixels away on either axis.
pub open spec fn move_reached_spec(start: RootPoint, current: RootPoint) -> bool {
    let (dx, dy) = move_delta_spec(start, current);
    dx >= 4 || dx <= -4 || dy >= 4 || dy <= -4
}

pub open spec fn with_session(s: ControllerView, session: InteractionSession) -> ControllerView {
    ControllerView { session, ..s }
}

pub open spec fn with_placement(s: ControllerView, placement: PlacementState) -> ControllerView {
    ControllerView { placement, ..s }
}

/// The placement after committing `frame`: the floating restore rect
/// follows the current rect while floating.
pub open spec fn commit_rect(p: PlacementState, frame: RootRect) -> PlacementState {
    PlacementState {
        current: frame,
        floating_restore: if p.mode == PlacementMode::Floating { frame } else { p.floating_restore },
        ..p
    }
}

/// One move step (motion or release of a move session).
pub open spec fn move_step_spec(
    s: ControllerView,
    m: MoveSession,
    pointer: RootPoint,
    final_commit: bool,
) -> (ControllerView, Seq<FrameEffect>) {
    let first = !m.anchor.activated;
    if first && !move_reached_spec(m.start_pointer, pointer) {
        (s, noop_plan())
    } else {
        let req = request_spec(
            s,
            GeometryReason::InteractiveMove,
            m.start_placement,
            move_delta_spec(m.start_pointer, pointer),
            edges(false, false, false, false),
        );
        let plan = plan_of(req, move_frame(req));
        let m2 = MoveSession { anchor: MoveAnchor { activated: true, ..m.anchor }, ..m };
        let s2 = with_session(s, InteractionSession::Move(m2));
        if first && s.placement.mode != PlacementMode::Floating {
            (
                with_placement(
                    s2,
                    PlacementState {
                        mode: PlacementMode::Floating,
                        current: plan.frame,
                        floating_restore: plan.frame,
                        resume: None,
                    },
                ),
                chrome_effects() + configure_effects_spec(plan.frame, s.extents),
            )
        } else if plan.noop && (!final_commit || s.placement.current == m.start_placement.rect) {
            (s2, noop_plan())
        } else {
            (with_placement(s2, commit_rect(s.placement, plan.frame)), move_effects_spec(plan.frame, s.extents))
        }
    }
}

/// One resize step (motion or release of a resize session).
pub open spec fn resize_step_spec(
    s: ControllerView,
    r: ResizeSession,
    pointer: RootPoint,
    final_effects: bool,
) -> (ControllerView, Seq<FrameEffect>) {
    if s.placement.mode == PlacementMode::Maximized || s.placement.mode == PlacementMode::Fullscreen {
        (s, noop_plan())
    } else {
        let req = request_spec(
            s,
            GeometryReason::InteractiveResize,
            r.start_placement,
            move_delta_spec(r.start_pointer, pointer),
            r.edges,
        );
        let plan = plan_of(req, resize_frame(req));
        if plan.noop && s.placement.current == r.start_placement.rect {
            (s, noop_plan())
        } else {
            let p1 = if s.placement.mode is Snapped {
                PlacementState { mode: PlacementMode::Floating, resume: None, ..s.placement }
            } else {
                s.placement
            };
            (
                with_placement(s, commit_rect(p1, plan.frame)),
                (if final_effects { chrome_effects() } else { Seq::empty() })
                    + configure_effects_spec(plan.frame, s.extents),
            )
        }
    }
}

/// Toggle into or out of a WM-owned mode (`Maximized` onto the work area,
/// `Fullscreen` onto the screen rect), remembering or restoring the resume
/// snapshot.
pub open spec fn toggle_spec(s: ControllerView, target: PlacementMode, rect: RootRect) -> (ControllerView, Seq<FrameEffect>) {
    let p = s.placement;
    let np = if p.mode == target {
        let snap = match p.resume {
            Some(sn) => sn,
            None => PlacementSnapshot { mode: PlacementMode::Floating, rect: p.floating_restore },
        };
        PlacementState { mode: snap.mode, current: snap.rect, resume: None, ..p }
    } else {
        PlacementState {
            mode: target,
            current: rect,
            floating_restore: if p.mode == PlacementMode::Floating { p.current } else { p.floating_restore },
            resume: Some(PlacementSnapshot { mode: p.mode, rect: p.current }),
        }
    };
    (
        ControllerView { session: InteractionSession::Idle, placement: np, ..s },
        chrome_effects() + configure_effects_spec(np.current, s.extents) + seq![FrameEffect::Ungrab],
    )
}

pub open spec fn toggle_max_spec(s: ControllerView) -> (ControllerView, Seq<FrameEffect>) {
    toggle_spec(s, PlacementMode::Maximized, s.work_area)
}

pub open spec fn toggle_fullscreen_spec(s: ControllerView) -> (ControllerView, Seq<FrameEffect>) {
    toggle_spec(s, PlacementMode::Fullscreen, s.screen_rect)
}

/// The start of a title drag: maximized and snapped windows restart from
/// the floating restore rect re-anchored under the pointer.
pub open spec fn title_start(s: ControllerView, pointer: RootPoint) -> RootRect {
    match s.placement.mode {
        PlacementMode::Floating => s.placement.current,
        _ => {
            let a = move_anchor_spec(pointer, s.placement.current);
            restore_rect(
                s.placement.floating_restore,
                pointer,
                a.frac_num,
                a.frac_den,
                sat_i32(pointer.y - s.placement.current.y),
                31,
            )
        },
    }
}

pub open spec fn press_spec(s: ControllerView, source: u32, pointer: RootPoint) -> (ControllerView, Seq<FrameEffect>) {
    match region_for(s.registry, source) {
        FrameRegion::TitleDrag => {
            if s.placement.mode == PlacementMode::Fullscreen {
                (s, noop_plan())
            } else {
                let start = title_start(s, pointer);
                let m = MoveSession {
                    client: s.client,
                    start_pointer: pointer,
                    start_placement: PlacementSnapshot { mode: PlacementMode::Floating, rect: start },
                    anchor: move_anchor_spec(pointer, start),
                    grab_window: s.grab,
                };
                (
                    with_session(s, InteractionSession::Move(m)),
                    seq![FrameEffect::Grab { window: s.grab, cursor: CursorKind::Move }],
                )
            }
        },
        FrameRegion::Resize(e) => {
            if s.placement.mode == PlacementMode::Maximized || s.placement.mode == PlacementMode::Fullscreen {
                (s, noop_plan())
            } else {
                let r = ResizeSession {
                    client: s.client,
                    start_pointer: pointer,
                    start_placement: PlacementSnapshot { mode: s.placement.mode, rect: s.placement.current },
                    edges: e,
                    grab_window: s.grab,
                };
                (
                    with_session(s, InteractionSession::Resize(r)),
                    seq![FrameEffect::Grab { window: s.grab, cursor: cursor_region_spec(FrameRegion::Resize(e)) }],
                )
            }
        },
        FrameRegion::Control(c) => (
            with_session(
                s,
                InteractionSession::ControlPress(
                    ControlPressSession { client: s.client, control: c, grab_window: s.grab, armed: true },
                ),
            ),
            seq![
                FrameEffect::Grab { window: s.grab, cursor: CursorKind::Default },
                FrameEffect::PaintChrome,
            ],
        ),
        FrameRegion::Client => (s, noop_plan()),
    }
}

/// A release ends any gesture: the final step's geometry, then `Ungrab`
/// (a plan that came out as a no-op is just `Ungrab`).
pub open spec fn finish_gesture(step: (ControllerView, Seq<FrameEffect>)) -> (ControllerView, Seq<FrameEffect>) {
    let idle = with_session(step.0, InteractionSession::Idle);
    if step.1 == noop_plan() {
        (idle, seq![FrameEffect::Ungrab])
    } else {
        (idle, step.1.push(FrameEffect::Ungrab))
    }
}

pub open spec fn release_spec(s: ControllerView, pointer: RootPoint) -> (ControllerView, Seq<FrameEffect>) {
    match s.session {
        InteractionSession::Move(m) => finish_gesture(move_step_spec(s, m, pointer, true)),
        InteractionSession::Resize(r) => finish_gesture(resize_step_spec(s, r, pointer, true)),
        InteractionSession::ControlPress(c) => {
            let idle = with_session(s, InteractionSession::Idle);
            if !c.armed {
                (idle, seq![FrameEffect::Ungrab, FrameEffect::PaintChrome])
            } else if c.control == FrameControl::MaximizeRestore {
                let t = toggle_max_spec(idle);
                (t.0, seq![FrameEffect::Ungrab] + t.1)
            } else {
                (idle, seq![FrameEffect::Ungrab, FrameEffect::PaintChrome])
            }
        },
        InteractionSession::Idle => (s, noop_plan()),
    }
}

/// The whole reducer: one event to the next state and its effect plan.
pub open spec fn reduce_spec(s: ControllerView, event: FrameEvent) -> (ControllerView, Seq<FrameEffect>) {
    match event {
        FrameEvent::Press { source, pointer } => press_spec(s, source, pointer),
        FrameEvent::Motion { pointer } => match s.session {
            InteractionSession::Move(m) => move_step_spec(s, m, pointer, false),
            InteractionSession::Resize(r) => resize_step_spec(s, r, pointer, false),
            _ => (s, noop_plan()),
        },
        FrameEvent::Release { pointer } => release_spec(s, pointer),
        FrameEvent::Enter => if s.session is ControlPress {
            (with_session(s, crate::frame::session::with_armed(s.session, true)), seq![FrameEffect::PaintChrome])
        } else {
            (s, noop_plan())
        },
        FrameEvent::Leave => if s.session is ControlPress {
            (with_session(s, crate::frame::session::with_armed(s.session, false)), seq![FrameEffect::PaintChrome])
        } else {
            (s, noop_plan())
        },
        FrameEvent::ClientConfigureRequest { root_origin, size } => {
            let req = request_spec(
                s,
                GeometryReason::ClientConfigure,
                PlacementSnapshot { mode: s.placement.mode, rect: s.placement.current },
                (0i32, 0i32),
                edges(false, false, false, false),
            );
            let plan = configure_plan(req, root_origin, size);
            if plan.noop {
                (s, noop_plan())
            } else {
                (
                    with_placement(s, PlacementState { current: plan.frame, ..s.placement }),
                    seq![FrameEffect::LayoutInput, FrameEffect::PaintChrome] + configure_effects_spec(plan.frame, s.extents),
                )
            }
        },
        FrameEvent::Snap { target } => {
            let rect = snap_rect_spec(s.work_area, target);
            let p = s.placement;
            let resume = if p.mode != PlacementMode::Floating {
                PlacementSnapshot { mode: p.mode, rect: p.current }
            } else {
                PlacementSnapshot { mode: PlacementMode::Floating, rect: p.floating_restore }
            };
            (
                ControllerView {
                    session: InteractionSession::Idle,
                    placement: PlacementState {
                        mode: PlacementMode::Snapped(target),
                        current: rect,
                        resume: Some(resume),
                        ..p
                    },
                    ..s
                },
                chrome_effects().push(FrameEffect::SnapPreview { target: Some(target) })
                    + configure_effects_spec(rect, s.extents) + seq![FrameEffect::Ungrab],
            )
        },
        FrameEvent::ToggleMax => toggle_max_spec(s),
        FrameEvent::ToggleFullscreen => toggle_fullscreen_spec(s),
        FrameEvent::Cancel => if s.session is Idle {
            (s, noop_plan())
        } else {
            (
                with_session(s, InteractionSession::Idle),
                seq![FrameEffect::Ungrab, FrameEffect::SnapPreview { target: None }],
            )
        },
    }
}

/// The placement modes in which a resize drag plans nothing.
pub open spec fn resize_frozen(mode: PlacementMode) -> bool {
    mode == PlacementMode::Maximized || mode == PlacementMode::Fullscreen
}

/// A motion or release that drives an active resize of a window that is
/// neither maximized nor fullscreen: the one path that runs the resize
/// clamps and the size policy.
pub open spec fn drives_resize(s: ControllerView, event: FrameEvent) -> bool {
    (event is Motion || event is Release) && s.session is Resize && !resize_frozen(s.placement.mode)
}

/// A client configure request that asks for a size while the window is
/// neither maximized nor fullscreen: the other path that runs the size
/// policy.
pub open spec fn sized_configure(s: ControllerView, event: FrameEvent) -> bool {
    event matches FrameEvent::ClientConfigureRequest { size, .. } && size is Some && !resize_frozen(
        s.placement.mode,
    )
}

/// When the reducer can run: on the two paths that divide by the size
/// increments, the hints are well formed; when a drag drives a resize, its
/// clamps have ordered bounds (a clamp with crossed bounds is a panic).
/// Every other event is accepted in any state.
pub open spec fn reduce_ok(s: ControllerView, event: FrameEvent) -> bool {
    &&& (drives_resize(s, event) || sized_configure(s, event) ==> hints_wf(s.hints))
    &&& (drives_resize(s, event) ==> (s.session matches InteractionSession::Resize(r) ==> resize_clamps_ok(
        request_spec(s, GeometryReason::InteractiveResize, r.start_placement, (0i32, 0i32), r.edges),
    )))
}

/// Whether the clamps of a resize request have ordered bounds (see
/// [`resize_clamps_ok`]).
fn resize_clamps_hold(req: &GeometryRequest) -> (r: bool)
    ensures
        r == resize_clamps_ok(*req),
{
    let s = req.start.rect;
    let wa = req.work_area;
    let fixed_right = sat_add(s.x, s.w);
    let fixed_bottom = sat_add(s.y, s.h);
    let left_ok = !req.edges.left || wa.x <= sat_sub(fixed_right, 1);
    let right_ok = !req.edges.right || sat_add(s.x, 1) <= sat_add(wa.x, wa.w);
    let top_ok = !req.edges.top || wa.y <= sat_sub(fixed_bottom, 1);
    let bottom_ok = !req.edges.bottom || sat_add(s.y, 1) <= sat_add(wa.y, wa.h);
    left_ok && right_ok && top_ok && bottom_ok
}

/// Whether the reducer can run `event` in `state`: the run-time test of
/// [`reduce_ok`], for callers that cannot prove it.
pub fn reduce_allowed(state: &ControllerState, event: FrameEvent) -> (r: bool)
    ensures
        r == reduce_ok(state@, event),
{
    let frozen = state.placement.mode == PlacementMode::Maximized || state.placement.mode
        == PlacementMode::Fullscreen;
    let pointer_step = match event {
        FrameEvent::Motion { .. } => true,
        FrameEvent::Release { .. } => true,
        _ => false,
    };
    let resizing = match state.session {
        InteractionSession::Resize(_) => true,
        _ => false,
    };
    let drives = pointer_step && resizing && !frozen;
    let sized = match event {
        FrameEvent::ClientConfigureRequest { size, .. } => size.is_some() && !frozen,
        _ => false,
    };
    let hints_ok = match state.hints.inc {
        Some((a, b)) => a > 0 && b > 0,
        None => true,
    };
    if (drives || sized) && !hints_ok {
        return false;
    }
    if drives {
        match state.session {
            InteractionSession::Resize(r) => {
                let req = request(
                    state,
                    GeometryReason::InteractiveResize,
                    r.start_placement,
                    (0i32, 0i32),
                    r.edges,
                );
                return resize_clamps_hold(&req);
            },
            _ => {},
        }
    }
    true
}

// ---- implementation ----

/// A copy of the state (the registry cloned).
pub(crate) fn dup(state: &ControllerState) -> (r: ControllerState)
    ensures
        r@ == state@,
{
    ControllerState {
        session: state.session,
        placement: state.placement,
        registry: state.registry.clone(),
        client: state.client,
        grab: state.grab,
        work_area: state.work_area,
        screen_rect: state.screen_rect,
        hints: state.hints,
        extents: state.extents,
    }
}

fn request(
    state: &ControllerState,
    reason: GeometryReason,
    start: PlacementSnapshot,
    delta: (i32, i32),
    edges: ResizeEdges,
) -> (r: GeometryRequest)
    ensures
        r == request_spec(state@, reason, start, delta, edges),
{
    GeometryRequest {
        reason,
        start,
        pointer_delta: delta,
        edges,
        work_area: state.work_area,
        hints: state.hints,
        frame_extents: state.extents,
    }
}

fn configure_effects(frame: RootRect, extents: FrameExtents) -> (r: Vec<FrameEffect>)
    ensures
        r@ == configure_effects_spec(frame, extents),
{
    let local = frame_to_client_local(frame, extents);
    let root: ClientRootRect = frame_to_client_root(frame, extents);
    let mut v: Vec<FrameEffect> = Vec::new();
    v.push(FrameEffect::ConfigureFrameRoot { x: frame.x, y: frame.y, w: frame.w, h: frame.h });
    v.push(
        FrameEffect::ConfigureClientLocal {
            x: local.x,
            y: local.y,
            w: pos_u32(local.w),
            h: pos_u32(local.h),
        },
    );
    v.push(
        FrameEffect::NotifyClientRoot { x: root.x, y: root.y, w: pos_u32(root.w), h: pos_u32(root.h) },
    );
    assert(v@ =~= configure_effects_spec(frame, extents));
    v
}

fn move_effects(frame: RootRect, extents: FrameExtents) -> (r: Vec<FrameEffect>)
    ensures
        r@ == move_effects_spec(frame, extents),
{
    let root: ClientRootRect = frame_to_client_root(frame, extents);
    let mut v: Vec<FrameEffect> = Vec::new();
    v.push(FrameEffect::MoveFrameRoot { x: frame.x, y: frame.y });
    v.push(
        FrameEffect::NotifyClientRoot { x: root.x, y: root.y, w: pos_u32(root.w), h: pos_u32(root.h) },
    );
    assert(v@ =~= move_effects_spec(frame, extents));
    v
}

fn one(e: FrameEffect) -> (r: Vec<FrameEffect>)
    ensures
        r@ == seq![e],
{
    let mut v: Vec<FrameEffect> = Vec::new();
    v.push(e);
    assert(v@ =~= seq![e]);
    v
}

fn two(a: FrameEffect, b: FrameEffect) -> (r: Vec<FrameEffect>)
    ensures
        r@ == seq![a, b],
{
    let mut v: Vec<FrameEffect> = Vec::new();
    v.push(a);
    v.push(b);
    assert(v@ =~= seq![a, b]);
    v
}

fn chrome() -> (r: Vec<FrameEffect>)
    ensures
        r@ == chrome_effects(),
{
    let mut v: Vec<FrameEffect> = Vec::new();
    v.push(FrameEffect::LayoutInput);
    v.push(FrameEffect::PaintChrome);
    v.push(FrameEffect::ApplyShape);
    assert(v@ =~= chrome_effects());
    v
}

fn is_noop_plan(v: &Vec<FrameEffect>) -> (r: bool)
    ensures
        r == (v@ == noop_plan()),
{
    if v.len() == 1 {
        let e = v[0];
        let r = match e {
            FrameEffect::Noop => true,
            _ => false,
        };
        proof {
            if r {
                assert(v@ =~= noop_plan());
            }
        }
        r
    } else {
        proof {
            assert(v@.len() != noop_plan().len());
        }
        false
    }
}

fn half_toward_zero(v: i32) -> (r: i32)
    ensures
        r == trunc_half(v as int),
{
    if v >= 0 {
        v / 2
    } else {
        let m: i64 = -(v as i64);
        -((m / 2) as i32)
    }
}

fn snap_rect(work_area: RootRect, target: SnapTarget) -> (r: RootRect)
    ensures
        r == snap_rect_spec(work_area, target),
{
    let (x, y, w, h) = (work_area.x, work_area.y, work_area.w, work_area.h);
    let hw = max_i32(half_toward_zero(w), 1);
    let hh = max_i32(half_toward_zero(h), 1);
    let rx = sat_add(x, sat_sub(w, hw));
    let by = sat_add(y, sat_sub(h, hh));
    match target {
        SnapTarget::Left => RootRect::new(x, y, hw, h),
        SnapTarget::Right => RootRect::new(rx, y, hw, h),
        SnapTarget::Top => RootRect::new(x, y, w, hh),
        SnapTarget::Bottom => RootRect::new(x, by, w, hh),
        SnapTarget::TopLeft => RootRect::new(x, y, hw, hh),
        SnapTarget::TopRight => RootRect::new(rx, y, hw, hh),
        SnapTarget::BottomLeft => RootRect::new(x, by, hw, hh),
        SnapTarget::BottomRight => RootRect::new(rx, by, hw, hh),
    }
}

fn move_anchor(pointer: RootPoint, rect: RootRect) -> (r: MoveAnchor)
    ensures
        r == move_anchor_spec(pointer, rect),
{
    let den = pos_u32(rect.w);
    let num = clamp_i32(sat_sub(pointer.x, rect.x), 0, max_i32(rect.w, 0)) as u32;
    let vert = clamp_i32(sat_sub(pointer.y, rect.y), 0, TITLEBAR_H);
    MoveAnchor::new(num, den, vert)
}

fn move_delta(start: RootPoint, current: RootPoint) -> (r: (i32, i32))
    ensures
        r == move_delta_spec(start, current),
{
    (sat_sub(current.x, start.x), sat_sub(current.y, start.y))
}

fn move_reached_activation(start: RootPoint, current: RootPoint) -> (r: bool)
    ensures
        r == move_reached_spec(start, current),
{
    let (dx, dy) = move_delta(start, current);
    dx >= 4 || dx <= -4 || dy >= 4 || dy <= -4
}

fn move_step(
    state: &ControllerState,
    session: MoveSession,
    pointer: RootPoint,
    final_commit: bool,
) -> (r: (ControllerState, Vec<FrameEffect>))
    ensures
        (r.0@, r.1@) == move_step_spec(state@, session, pointer, final_commit),
{
    let mut session = session;
    let mut next = dup(state);
    let first_activation = !session.anchor.is_activated();
    if first_activation && !move_reached_activation(session.start_pointer, pointer) {
        return (next, one(FrameEffect::Noop));
    }
    let delta = move_delta(session.start_pointer, pointer);
    let req = request(state, GeometryReason::InteractiveMove, session.start_placement, delta, ResizeEdges::none());
    let plan = plan_move(&req);
    session.anchor.activate();
    next.session.begin_move(session);
    if first_activation && state.placement.mode != PlacementMode::Floating {
        next.placement.mode = PlacementMode::Floating;
        next.placement.resume = None;
        next.placement.current = plan.frame;
        next.placement.floating_restore = plan.frame;
        let mut effects = chrome();
        let mut tail = configure_effects(plan.frame, state.extents);
        effects.append(&mut tail);
        return (next, effects);
    }
    if plan.noop && (!final_commit || state.placement.current == session.start_placement.rect) {
        return (next, one(FrameEffect::Noop));
    }
    next.placement.current = plan.frame;
    if next.placement.mode == PlacementMode::Floating {
        next.placement.floating_restore = plan.frame;
    }
    (next, move_effects(plan.frame, state.extents))
}

fn resize_step(
    state: &ControllerState,
    session: ResizeSession,
    pointer: RootPoint,
    final_effects: bool,
) -> (r: (ControllerState, Vec<FrameEffect>))
    requires
        !resize_frozen(state.placement.mode) ==> hints_wf(state.hints),
        !resize_frozen(state.placement.mode) ==> resize_clamps_ok(
            request_spec(state@, GeometryReason::InteractiveResize, session.start_placement, (0i32, 0i32), session.edges),
        ),
    ensures
        (r.0@, r.1@) == resize_step_spec(state@, session, pointer, final_effects),
{
    let mut next = dup(state);
    if state.placement.mode == PlacementMode::Maximized || state.placement.mode == PlacementMode::Fullscreen {
        return (next, one(FrameEffect::Noop));
    }
    let delta = move_delta(session.start_pointer, pointer);
    let req = request(state, GeometryReason::InteractiveResize, session.start_placement, delta, session.edges);
    let plan = plan_resize(&req);
    let should_commit = !plan.noop || state.placement.current != session.start_placement.rect;
    if !should_commit {
        return (next, one(FrameEffect::Noop));
    }
    if let PlacementMode::Snapped(_) = state.placement.mode {
        next.placement.mode = PlacementMode::Floating;
        next.placement.resume = None;
    }
    next.placement.current = plan.frame;
    if next.placement.mode == PlacementMode::Floating {
        next.placement.floating_restore = plan.frame;
    }
    let mut effects = if final_effects { chrome() } else { Vec::new() };
    let mut tail = configure_effects(plan.frame, state.extents);
    effects.append(&mut tail);
    proof {
        assert(effects@ =~= (if final_effects { chrome_effects() } else { Seq::empty() })
            + configure_effects_spec(plan.frame, state.extents));
    }
    (next, effects)
}

fn toggle(state: &ControllerState, target: PlacementMode, rect: RootRect) -> (r: (ControllerState, Vec<FrameEffect>))
    ensures
        (r.0@, r.1@) == toggle_spec(state@, target, rect),
{
    let mut next = dup(state);
    next.session = InteractionSession::Idle;
    if state.placement.mode == target {
        let snap = match state.placement.resume {
            Some(sn) => sn,
            None => PlacementSnapshot { mode: PlacementMode::Floating, rect: state.placement.floating_restore },
        };
        next.placement.mode = snap.mode;
        next.placement.current = snap.rect;
        next.placement.resume = None;
    } else {
        next.placement.resume = Some(PlacementSnapshot { mode: state.placement.mode, rect: state.placement.current });
        if state.placement.mode == PlacementMode::Floating {
            next.placement.floating_restore = state.placement.current;
        }
        next.placement.mode = target;
        next.placement.current = rect;
    }
    let frame = next.placement.current;
    let mut effects = chrome();
    let mut tail = configure_effects(frame, state.extents);
    effects.append(&mut tail);
    effects.push(FrameEffect::Ungrab);
    (next, effects)
}

fn toggle_max(state: &ControllerState) -> (r: (ControllerState, Vec<FrameEffect>))
    ensures
        (r.0@, r.1@) == toggle_max_spec(state@),
{
    toggle(state, PlacementMode::Maximized, state.work_area)
}

fn toggle_fullscreen(state: &ControllerState) -> (r: (ControllerState, Vec<FrameEffect>))
    ensures
        (r.0@, r.1@) == toggle_fullscreen_spec(state@),
{
    toggle(state, PlacementMode::Fullscreen, state.screen_rect)
}

fn press(state: &ControllerState, source: u32, pointer: RootPoint) -> (r: (ControllerState, Vec<FrameEffect>))
    ensures
        (r.0@, r.1@) == press_spec(state@, source, pointer),
{
    let mut next = dup(state);
    let target = target_for_xid(&state.registry, state.client, source);
    match target.region {
        FrameRegion::TitleDrag => {
            let start_rect = match state.placement.mode {
                PlacementMode::Fullscreen => return (next, one(FrameEffect::Noop)),
                PlacementMode::Maximized | PlacementMode::Snapped(_) => {
                    let visible_anchor = move_anchor(pointer, state.placement.current);
                    maximized_restore_rect(
                        state.placement.floating_restore,
                        pointer,
                        visible_anchor.frac_num,
                        visible_anchor.frac_den,
                        sat_sub(pointer.y, state.placement.current.y),
                        TITLEBAR_H,
                    )
                },
                PlacementMode::Floating => state.placement.current,
            };
            let anchor = move_anchor(pointer, start_rect);
            next.session.begin_move(
                MoveSession {
                    client: state.client,
                    start_pointer: pointer,
                    start_placement: PlacementSnapshot { mode: PlacementMode::Floating, rect: start_rect },
                    anchor,
                    grab_window: state.grab,
                },
            );
            (next, one(FrameEffect::Grab { window: state.grab, cursor: CursorKind::Move }))
        },
        FrameRegion::Resize(e) => {
            if state.placement.mode == PlacementMode::Maximized || state.placement.mode == PlacementMode::Fullscreen {
                return (next, one(FrameEffect::Noop));
            }
            next.session.begin_resize(
                ResizeSession {
                    client: state.client,
                    start_pointer: pointer,
                    start_placement: PlacementSnapshot { mode: state.placement.mode, rect: state.placement.current },
                    edges: e,
                    grab_window: state.grab,
                },
            );
            (next, one(FrameEffect::Grab { window: state.grab, cursor: cursor_for_region(FrameRegion::Resize(e)) }))
        },
        FrameRegion::Control(control) => {
            next.session.begin_control(ControlPressSession::new(state.client, control, state.grab));
            (
                next,
                two(
                    FrameEffect::Grab { window: state.grab, cursor: cursor_for_region(FrameRegion::Control(control)) },
                    FrameEffect::PaintChrome,
                ),
            )
        },
        FrameRegion::Client => (next, one(FrameEffect::Noop)),
    }
}

fn finish(step: (ControllerState, Vec<FrameEffect>)) -> (r: (ControllerState, Vec<FrameEffect>))
    ensures
        (r.0@, r.1@) == finish_gesture((step.0@, step.1@)),
{
    let (mut next, mut effects) = step;
    next.session = InteractionSession::Idle;
    if is_noop_plan(&effects) {
        return (next, one(FrameEffect::Ungrab));
    }
    effects.push(FrameEffect::Ungrab);
    (next, effects)
}

fn release(state: &ControllerState, pointer: RootPoint) -> (r: (ControllerState, Vec<FrameEffect>))
    requires
        reduce_ok(state@, FrameEvent::Release { pointer }),
    ensures
        (r.0@, r.1@) == release_spec(state@, pointer),
{
    let mut next = dup(state);
    match state.session {
        InteractionSession::Move(m) => finish(move_step(state, m, pointer, true)),
        InteractionSession::Resize(r) => finish(resize_step(state, r, pointer, true)),
        InteractionSession::ControlPress(c) => {
            next.session = InteractionSession::Idle;
            if !c.armed {
                return (next, two(FrameEffect::Ungrab, FrameEffect::PaintChrome));
            }
            match c.control {
                FrameControl::MaximizeRestore => {
                    let (mut out, mut effects) = toggle_max(&next);
                    let mut head = one(FrameEffect::Ungrab);
                    head.append(&mut effects);
                    out.session = InteractionSession::Idle;
                    (out, head)
                },
                FrameControl::Minimize | FrameControl::Close => {
                    (next, two(FrameEffect::Ungrab, FrameEffect::PaintChrome))
                },
            }
        },
        InteractionSession::Idle => (next, one(FrameEffect::Noop)),
    }
}

/// Reducer: one event to `(next state, native effect plan)`.
pub fn reduce(state: &ControllerState, event: FrameEvent) -> (r: (ControllerState, Vec<FrameEffect>))
    requires
        reduce_ok(state@, event),
    ensures
        (r.0@, r.1@) == reduce_spec(state@, event),
{
    let mut next = dup(state);
    match event {
        FrameEvent::Press { source, pointer } => press(state, source, pointer),
        FrameEvent::Motion { pointer } => match state.session {
            InteractionSession::Move(m) => move_step(state, m, pointer, false),
            InteractionSession::Resize(r) => resize_step(state, r, pointer, false),
            InteractionSession::ControlPress(_) | InteractionSession::Idle => (next, one(FrameEffect::Noop)),
        },
        FrameEvent::Release { pointer } => release(state, pointer),
        FrameEvent::Enter => {
            if let InteractionSession::ControlPress(_) = next.session {
                next.session.control_enter();
                (next, one(FrameEffect::PaintChrome))
            } else {
                (next, one(FrameEffect::Noop))
            }
        },
        FrameEvent::Leave => {
            if let InteractionSession::ControlPress(_) = next.session {
                next.session.control_leave();
                (next, one(FrameEffect::PaintChrome))
            } else {
                (next, one(FrameEffect::Noop))
            }
        },
        FrameEvent::ClientConfigureRequest { root_origin, size } => {
            let req = request(
                state,
                GeometryReason::ClientConfigure,
                PlacementSnapshot { mode: state.placement.mode, rect: state.placement.current },
                (0, 0),
                ResizeEdges::none(),
            );
            let plan = plan_client_configure(&req, root_origin, size);
            if plan.noop {
                return (next, one(FrameEffect::Noop));
            }
            next.placement.current = plan.frame;
            let mut effects = two(FrameEffect::LayoutInput, FrameEffect::PaintChrome);
            let mut tail = configure_effects(plan.frame, state.extents);
            effects.append(&mut tail);
            (next, effects)
        },
        FrameEvent::Snap { target } => {
            let rect = snap_rect(state.work_area, target);
            next.session = InteractionSession::Idle;
            if next.placement.mode != PlacementMode::Floating {
                next.placement.resume = Some(PlacementSnapshot { mode: next.placement.mode, rect: next.placement.current });
            } else {
                next.placement.resume = Some(
                    PlacementSnapshot { mode: PlacementMode::Floating, rect: next.placement.floating_restore },
                );
            }
            next.placement.mode = PlacementMode::Snapped(target);
            next.placement.current = rect;
            let mut effects = chrome();
            effects.push(FrameEffect::SnapPreview { target: Some(target) });
            let mut tail = configure_effects(rect, state.extents);
            effects.append(&mut tail);
            effects.push(FrameEffect::Ungrab);
            (next, effects)
        },
        FrameEvent::ToggleMax => toggle_max(&next),
        FrameEvent::ToggleFullscreen => toggle_fullscreen(&next),
        FrameEvent::Cancel => {
            if state.session.is_idle() {
                (next, one(FrameEffect::Noop))
            } else {
                next.session.cancel();
                (next, two(FrameEffect::Ungrab, FrameEffect::SnapPreview { target: None }))
            }
        },
    }
}

// ---- laws ----

/// Law: once a move is active, every further motion is position-only: the
/// plan is a no-op or exactly `MoveFrameRoot` plus the client-root notify
/// (no client configure, layout, paint or shape), the frame keeps the
/// size it had when the drag started, and the mode does not change.
pub proof fn lemma_active_move_is_position_only(s: ControllerView, m: MoveSession, pointer: RootPoint)
    requires
        s.session == InteractionSession::Move(m),
        m.anchor.activated,
    ensures
        ({
            let (n, fx) = reduce_spec(s, FrameEvent::Motion { pointer });
            &&& fx == noop_plan() || fx == move_effects_spec(n.placement.current, s.extents)
            &&& fx.len() <= 2
            &&& fx != noop_plan() ==> n.placement.current.w == m.start_placement.rect.w
                && n.placement.current.h == m.start_placement.rect.h
            &&& n.placement.mode == s.placement.mode
        }),
{
}

/// Law: maximizing and then restoring (with nothing in between) brings a
/// non-maximized window back to its mode and rect, with no resume snapshot
/// left over.
pub proof fn lemma_toggle_max_roundtrip(s: ControllerView)
    requires
        s.placement.mode != PlacementMode::Maximized,
    ensures
        ({
            let once = toggle_max_spec(s).0;
            let twice = toggle_max_spec(once).0;
            &&& once.placement.mode == PlacementMode::Maximized
            &&& once.placement.current == s.work_area
            &&& twice.placement.mode == s.placement.mode
            &&& twice.placement.current == s.placement.current
            &&& twice.placement.resume == None::<PlacementSnapshot>
            &&& twice.session == InteractionSession::Idle
        }),
{
}

/// The snap targets that fill the left half or a left quarter.
pub open spec fn snaps_left(t: SnapTarget) -> bool {
    t == SnapTarget::Left || t == SnapTarget::TopLeft || t == SnapTarget::BottomLeft
}

/// The snap targets that fill the right half or a right quarter.
pub open spec fn snaps_right(t: SnapTarget) -> bool {
    t == SnapTarget::Right || t == SnapTarget::TopRight || t == SnapTarget::BottomRight
}

/// The snap targets that fill the top half or a top quarter.
pub open spec fn snaps_top(t: SnapTarget) -> bool {
    t == SnapTarget::Top || t == SnapTarget::TopLeft || t == SnapTarget::TopRight
}

/// The snap targets that fill the bottom half or a bottom quarter.
pub open spec fn snaps_bottom(t: SnapTarget) -> bool {
    t == SnapTarget::Bottom || t == SnapTarget::BottomLeft || t == SnapTarget::BottomRight
}

/// Law: a snap places the window inside the work area against the sides
/// its target names: a left target starts at the work area's left edge, a
/// right target ends at its right edge, each half as wide as the work area
/// (rounded down); a target that names neither side spans the full width.
/// The same holds vertically, and the window becomes snapped to the target.
pub proof fn lemma_snap_fills_target(s: ControllerView, target: SnapTarget)
    requires
        s.work_area.w >= 2,
        s.work_area.h >= 2,
        s.work_area.x + s.work_area.w <= i32::MAX,
        s.work_area.y + s.work_area.h <= i32::MAX,
    ensures
        ({
            let next = reduce_spec(s, FrameEvent::Snap { target }).0;
            let r = next.placement.current;
            let wa = s.work_area;
            &&& next.placement.mode == PlacementMode::Snapped(target)
            &&& next.session == InteractionSession::Idle
            &&& wa.x <= r.x && r.x + r.w <= wa.x + wa.w
            &&& wa.y <= r.y && r.y + r.h <= wa.y + wa.h
            &&& snaps_left(target) ==> r.x == wa.x
            &&& snaps_right(target) ==> r.x + r.w == wa.x + wa.w
            &&& (snaps_left(target) || snaps_right(target)) ==> 2 * r.w <= wa.w < 2 * r.w + 2
            &&& !snaps_left(target) && !snaps_right(target) ==> r.x == wa.x && r.w == wa.w
            &&& snaps_top(target) ==> r.y == wa.y
            &&& snaps_bottom(target) ==> r.y + r.h == wa.y + wa.h
            &&& (snaps_top(target) || snaps_bottom(target)) ==> 2 * r.h <= wa.h < 2 * r.h + 2
            &&& !snaps_top(target) && !snaps_bottom(target) ==> r.y == wa.y && r.h == wa.h
        }),
{
}

/// Law: the left and right halves are mirror images that do not overlap:
/// equally wide and tall, and the right half's left edge as far from the
/// work area's left edge as the left half's right edge is from the work
/// area's right edge.
pub proof fn lemma_snap_halves_mirror(s: ControllerView)
    requires
        s.work_area.w >= 2,
        s.work_area.h >= 2,
        s.work_area.x + s.work_area.w <= i32::MAX,
        s.work_area.y + s.work_area.h <= i32::MAX,
    ensures
        ({
            let l = reduce_spec(s, FrameEvent::Snap { target: SnapTarget::Left }).0.placement.current;
            let r = reduce_spec(s, FrameEvent::Snap { target: SnapTarget::Right }).0.placement.current;
            let wa = s.work_area;
            &&& l.w == r.w && l.y == r.y && l.h == r.h
            &&& r.x - wa.x == (wa.x + wa.w) - (l.x + l.w)
            &&& l.x + l.w <= r.x
        }),
{
    lemma_snap_fills_target(s, SnapTarget::Left);
    lemma_snap_fills_target(s, SnapTarget::Right);
}


/// Law: in any session, maximizing a floating window and restoring it
/// through the reducer brings it back to its floating rect with no resume
/// snapshot left over; the restore reconfigures the frame to that rect and
/// ends with a single `Ungrab`. Toggling is accepted whatever gesture is
/// under way.
pub proof fn lemma_max_restore_returns_to_floating(s: ControllerView)
    requires
        s.placement.mode == PlacementMode::Floating,
    ensures
        reduce_ok(s, FrameEvent::ToggleMax),
        reduce_ok(reduce_spec(s, FrameEvent::ToggleMax).0, FrameEvent::ToggleMax),
        ({
            let once = reduce_spec(s, FrameEvent::ToggleMax).0;
            let (twice, fx) = reduce_spec(once, FrameEvent::ToggleMax);
            let c = s.placement.current;
            &&& once.placement.mode == PlacementMode::Maximized
            &&& once.placement.current == s.work_area
            &&& twice.placement.mode == PlacementMode::Floating
            &&& twice.placement.current == c
            &&& twice.placement.resume == None::<PlacementSnapshot>
            &&& fx.contains(FrameEffect::ConfigureFrameRoot { x: c.x, y: c.y, w: c.w, h: c.h })
            &&& fx.last() == FrameEffect::Ungrab
            &&& forall|i: int| 0 <= i < fx.len() - 1 ==> fx[i] != FrameEffect::Ungrab
        }),
{
    let once = reduce_spec(s, FrameEvent::ToggleMax).0;
    let fx = reduce_spec(once, FrameEvent::ToggleMax).1;
    let c = s.placement.current;
    assert(fx[3] == FrameEffect::ConfigureFrameRoot { x: c.x, y: c.y, w: c.w, h: c.h });
}

/// Law: the same round trip through fullscreen, which uses the screen rect.
pub proof fn lemma_toggle_fullscreen_roundtrip(s: ControllerView)
    requires
        s.placement.mode != PlacementMode::Fullscreen,
    ensures
        ({
            let once = toggle_fullscreen_spec(s).0;
            let twice = toggle_fullscreen_spec(once).0;
            &&& once.placement.mode == PlacementMode::Fullscreen
            &&& once.placement.current == s.screen_rect
            &&& twice.placement.mode == s.placement.mode
            &&& twice.placement.current == s.placement.current
            &&& twice.placement.resume == None::<PlacementSnapshot>
        }),
{
}

/// Law: a release always ends the gesture (the session is idle afterwards)
/// and, for an active gesture, the plan ends with `Ungrab` (final geometry
/// first, ungrab last) except after a maximize-restore click, which leads
/// with `Ungrab`.
pub proof fn lemma_release_ends_gesture(s: ControllerView, pointer: RootPoint)
    requires
        !(s.session is Idle),
    ensures
        ({
            let (n, fx) = reduce_spec(s, FrameEvent::Release { pointer });
            &&& n.session == InteractionSession::Idle
            &&& fx.len() >= 1
            &&& (fx.last() == FrameEffect::Ungrab || fx[0] == FrameEffect::Ungrab)
        }),
{
    let (n, fx) = reduce_spec(s, FrameEvent::Release { pointer });
    match s.session {
        InteractionSession::Move(m) => {
            let st = move_step_spec(s, m, pointer, true);
            if st.1 != noop_plan() {
                assert(st.1.push(FrameEffect::Ungrab).last() == FrameEffect::Ungrab);
            }
        },
        InteractionSession::Resize(r) => {
            let st = resize_step_spec(s, r, pointer, true);
            if st.1 != noop_plan() {
                assert(st.1.push(FrameEffect::Ungrab).last() == FrameEffect::Ungrab);
            }
        },
        _ => {},
    }
}

/// Law: cancelling aborts any gesture without touching the placement, and
/// is a no-op when idle.
pub proof fn lemma_cancel_keeps_placement(s: ControllerView)
    ensures
        ({
            let (n, fx) = reduce_spec(s, FrameEvent::Cancel);
            &&& n.session == InteractionSession::Idle
            &&& n.placement == s.placement
            &&& (s.session is Idle ==> fx == noop_plan())
        }),
{
}

/// Law: maximized and fullscreen windows refuse interactive resizing and
/// are never changed by client configure requests.
pub proof fn lemma_owned_modes_refuse(s: ControllerView, event: FrameEvent)
    requires
        s.placement.mode == PlacementMode::Maximized || s.placement.mode == PlacementMode::Fullscreen,
        event is ClientConfigureRequest || (event is Press && region_for(s.registry, event->source) is Resize)
            || (event is Motion && s.session is Resize),
    ensures
        reduce_spec(s, event) == (s, noop_plan()),
{
}

/// Law: a press on anything but a registered frame child (the client
/// window included) changes nothing.
pub proof fn lemma_client_press_is_noop(s: ControllerView, source: u32, pointer: RootPoint)
    requires
        !s.registry.contains_key(source),
    ensures
        reduce_spec(s, FrameEvent::Press { source, pointer }) == (s, noop_plan()),
{
}

} // verus!
