//! Pointer-transaction orchestration over the frame reducer: grab and
//! ungrab order, the per-client region view and controller storage.

use vstd::prelude::*;
use std::collections::HashMap;
use crate::client::ManagedClient;
use crate::cursor::CursorKind;
use crate::frame::controller::{
    ControllerState, ControllerView, FrameEffect, FrameEvent, dup, reduce, reduce_ok, reduce_spec,
};
use crate::frame::coords::RootRect;
use crate::frame::geometry::FrameExtents;
use crate::frame::model::{FrameRegion, PlacementState};
use crate::frame::session::InteractionSession;
use crate::size_hints::ClientSizeHints;
use crate::frame::coords::{legacy_to_root, root_to_legacy};
use crate::client::{rect_to_root, root_to_rect};
use crate::arith::{max_i32, max_int};
use crate::frame::model::{FrameControl, PlacementMode};

verus! {

broadcast use {vstd::std_specs::hash::group_hash_axioms, vstd::seq_lib::lemma_seq_contains_after_push};

/// Pointer-commit order derived from one reducer plan.
#[derive(Debug, Clone, PartialEq, Eq)]
pub struct PointerCommit {
    /// Grab target and cursor of the plan's first `Grab`.
    pub grab: Option<(u32, CursorKind)>,
    /// The plan contains `Ungrab`.
    pub ungrab: bool,
    /// A grab is requested, so a failed grab must cancel the session.
    pub abort_on_grab_fail: bool,
    /// The plan, verbatim.
    pub effects: Vec<FrameEffect>,
}

/// The first `Grab` of a plan.
pub open spec fn first_grab(s: Seq<FrameEffect>) -> Option<(u32, CursorKind)>
    decreases s.len(),
{
    if s.len() == 0 {
        None
    } else {
        match first_grab(s.drop_last()) {
            Some(g) => Some(g),
            None => match s.last() {
                FrameEffect::Grab { window, cursor } => Some((window, cursor)),
                _ => None,
            },
        }
    }
}

/// The plan contains `Ungrab`.
pub open spec fn has_ungrab(s: Seq<FrameEffect>) -> bool {
    s.contains(FrameEffect::Ungrab)
}

impl PointerCommit {
    pub fn plan(effects: Vec<FrameEffect>) -> (r: Self)
        ensures
            r.grab == first_grab(effects@),
            r.ungrab == has_ungrab(effects@),
            r.abort_on_grab_fail == (first_grab(effects@) is Some),
            r.effects@ == effects@,
    {
        let mut grab: Option<(u32, CursorKind)> = None;
        let mut ungrab = false;
        let mut i: usize = 0;
        while i < effects.len()
            invariant
                i <= effects@.len(),
                grab == first_grab(effects@.take(i as int)),
                ungrab == has_ungrab(effects@.take(i as int)),
            decreases effects@.len() - i,
        {
            let e = effects[i];
            proof {
                assert(effects@.take(i as int + 1).drop_last() =~= effects@.take(i as int));
                assert(effects@.take(i as int + 1) =~= effects@.take(i as int).push(e));
            }
            match e {
                FrameEffect::Grab { window, cursor } => {
                    if grab.is_none() {
                        grab = Some((window, cursor));
                    }
                },
                FrameEffect::Ungrab => ungrab = true,
                _ => {},
            }
            i += 1;
        }
        assert(effects@.take(effects@.len() as int) =~= effects@);
        PointerCommit { grab, ungrab, abort_on_grab_fail: grab.is_some(), effects }
    }
}

/// The registry restricted to one client's children.
pub open spec fn region_view(by_xid: Map<u32, FrameRegion>, children: Seq<u32>) -> Map<u32, FrameRegion> {
    Map::new(|x: u32| children.contains(x) && by_xid.contains_key(x), |x: u32| by_xid[x])
}

/// Build the region view of one client from the shared registry map.
pub fn region_map_for(by_xid: &HashMap<u32, FrameRegion>, client_children: &[u32]) -> (r: HashMap<u32, FrameRegion>)
    ensures
        r@ == region_view(by_xid@, client_children@),
{
    let mut out: HashMap<u32, FrameRegion> = HashMap::with_capacity(client_children.len());
    let mut i: usize = 0;
    while i < client_children.len()
        invariant
            i <= client_children@.len(),
            out@ == region_view(by_xid@, client_children@.take(i as int)),
        decreases client_children@.len() - i,
    {
        let xid = client_children[i];
        proof {
            assert(client_children@.take(i as int + 1) =~= client_children@.take(i as int).push(xid));
        }
        match by_xid.get(&xid) {
            Some(region) => {
                out.insert(xid, *region);
            },
            None => {},
        }
        proof {
            assert(out@ =~= region_view(by_xid@, client_children@.take(i as int + 1)));
        }
        i += 1;
    }
    assert(client_children@.take(client_children@.len() as int) =~= client_children@);
    out
}

/// A controller snapshot built from explicit live state.
pub fn build_controller(
    client: u32,
    grab: u32,
    placement: PlacementState,
    work_area: RootRect,
    screen_rect: RootRect,
    hints: ClientSizeHints,
    extents: FrameExtents,
    session: InteractionSession,
    region_map: HashMap<u32, FrameRegion>,
) -> (r: ControllerState)
    ensures
        r@ == (ControllerView {
            session,
            placement,
            registry: region_map@,
            client,
            grab,
            work_area,
            screen_rect,
            hints,
            extents,
        }),
{
    let mut controller = ControllerState::new(client, grab, placement, work_area, hints, extents).with_screen_rect(
        screen_rect,
    ).with_registry(region_map);
    controller.session = session;
    controller
}

/// One reducer step plus its pointer-commit order.
pub fn step(state: &ControllerState, event: FrameEvent) -> (r: (ControllerState, PointerCommit))
    requires
        reduce_ok(state@, event),
    ensures
        r.0@ == reduce_spec(state@, event).0,
        r.1.effects@ == reduce_spec(state@, event).1,
        r.1.grab == first_grab(reduce_spec(state@, event).1),
        r.1.ungrab == has_ungrab(reduce_spec(state@, event).1),
{
    let (next, effects) = reduce(state, event);
    let commit = PointerCommit::plan(effects);
    (next, commit)
}

/// Store the next session and placement for `client` (a new entry is a
/// copy of `next`), and mirror the placement into the client record.
pub fn store_controller(
    sessions: &mut HashMap<u32, ControllerState>,
    client_state: Option<&mut ManagedClient>,
    client: u32,
    next: &ControllerState,
)
    ensures
        final(sessions)@.dom() == old(sessions)@.dom().insert(client),
        forall|k: u32| k != client && #[trigger] old(sessions)@.contains_key(k) ==> final(sessions)@[k]
            == old(sessions)@[k],
        final(sessions)@[client]@ == (if old(sessions)@.contains_key(client) {
            ControllerView { session: next.session, placement: next.placement, ..old(sessions)@[client]@ }
        } else {
            next@
        }),
        client_state matches Some(c) ==> *final(c) == (ManagedClient {
            placement: next.placement,
            outer: root_to_legacy(next.placement.current),
            ..*c
        }),
{
    match sessions.remove(&client) {
        Some(entry) => {
            let mut entry = entry;
            entry.session = next.session;
            entry.placement = next.placement;
            sessions.insert(client, entry);
        },
        None => {
            sessions.insert(client, dup(next));
        },
    }
    proof {
        assert(sessions@.dom() =~= old(sessions)@.dom().insert(client));
    }
    if let Some(state) = client_state {
        state.apply_placement(next.placement);
    }
}

/// Commit a position-only frame move to the client record and its
/// session: the current rect moves to `(x, y)` keeping its size (at least
/// 1), a floating window's restore rect moves with it, and the legacy
/// mirror follows.
pub fn commit_frame_position(state: &mut ManagedClient, session: &mut ControllerState, x: i32, y: i32)
    ensures
        ({
            let cur = old(state).placement.current;
            let next = RootRect { x, y, w: max_int(cur.w as int, 1) as i32, h: max_int(cur.h as int, 1) as i32 };
            let restore = old(state).placement.floating_restore;
            &&& *final(state) == (ManagedClient {
                placement: PlacementState {
                    current: next,
                    floating_restore: if old(state).placement.mode == PlacementMode::Floating {
                        RootRect {
                            x,
                            y,
                            w: max_int(restore.w as int, 1) as i32,
                            h: max_int(restore.h as int, 1) as i32,
                        }
                    } else {
                        restore
                    },
                    ..old(state).placement
                },
                outer: root_to_legacy(next),
                ..*old(state)
            })
            &&& final(session)@ == (ControllerView {
                placement: PlacementState { current: next, ..old(session)@.placement },
                ..old(session)@
            })
        }),
{
    let current = state.placement.current;
    let next = RootRect::new(x, y, max_i32(current.w, 1), max_i32(current.h, 1));
    state.placement.current = next;
    if state.placement.mode == PlacementMode::Floating {
        let restore = state.placement.floating_restore;
        state.placement.floating_restore = RootRect::new(x, y, max_i32(restore.w, 1), max_i32(restore.h, 1));
    }
    state.outer = root_to_rect(next);
    session.placement.current = next;
}

/// Commit a full frame rect to the client record and its session: the
/// rect (sizes at least 1) goes through the legacy form, becomes the
/// current rect and, while floating, the restore rect.
pub fn commit_frame_rect(
    state: &mut ManagedClient,
    session: &mut ControllerState,
    x: i32,
    y: i32,
    w: i32,
    h: i32,
)
    ensures
        ({
            let frame = root_to_legacy(
                RootRect { x, y, w: max_int(w as int, 1) as i32, h: max_int(h as int, 1) as i32 },
            );
            let current = legacy_to_root(frame);
            &&& *final(state) == (ManagedClient {
                placement: PlacementState {
                    current,
                    floating_restore: if old(state).placement.mode == PlacementMode::Floating {
                        current
                    } else {
                        old(state).placement.floating_restore
                    },
                    ..old(state).placement
                },
                outer: frame,
                ..*old(state)
            })
            &&& final(session)@ == (ControllerView {
                placement: PlacementState { current, ..old(session)@.placement },
                ..old(session)@
            })
        }),
{
    let frame = RootRect::new(x, y, max_i32(w, 1), max_i32(h, 1)).to_legacy();
    let current = rect_to_root(frame);
    state.placement.current = current;
    if state.placement.mode == PlacementMode::Floating {
        state.placement.floating_restore = current;
    }
    state.outer = frame;
    session.placement.current = current;
}

/// A pointer event out of a move session (motion or release): these are
/// counted as received move samples.
pub fn is_move_event(session: InteractionSession, event: FrameEvent) -> (r: bool)
    ensures
        r == (session is Move && (event is Motion || event is Release)),
{
    let moving = match session {
        InteractionSession::Move(_) => true,
        _ => false,
    };
    let pointer = match event {
        FrameEvent::Motion { .. } | FrameEvent::Release { .. } => true,
        _ => false,
    };
    moving && pointer
}

/// A move that dragged a maximized or snapped window back to floating:
/// its state must be republished.
pub fn drag_away_from_tiled(session: InteractionSession, before: PlacementMode, after: PlacementMode) -> (r:
    bool)
    ensures
        r == (session is Move && (before == PlacementMode::Maximized || before is Snapped) && after
            == PlacementMode::Floating),
{
    let moving = match session {
        InteractionSession::Move(_) => true,
        _ => false,
    };
    let tiled = match before {
        PlacementMode::Maximized | PlacementMode::Snapped(_) => true,
        _ => false,
    };
    let floating = match after {
        PlacementMode::Floating => true,
        _ => false,
    };
    moving && tiled && floating
}

/// Every effect of a plan is `Noop` (a coalesced move sample).
pub fn all_noop(effects: &Vec<FrameEffect>) -> (r: bool)
    ensures
        r == (forall|i: int| 0 <= i < effects@.len() ==> #[trigger] effects@[i] == FrameEffect::Noop),
{
    let mut i: usize = 0;
    while i < effects.len()
        invariant
            i <= effects@.len(),
            forall|j: int| 0 <= j < i ==> #[trigger] effects@[j] == FrameEffect::Noop,
        decreases effects@.len() - i,
    {
        match effects[i] {
            FrameEffect::Noop => {},
            _ => return false,
        }
        i += 1;
    }
    true
}

/// The control drawn pressed: an armed control press.
pub fn pressed_control(session: Option<InteractionSession>) -> (r: Option<FrameControl>)
    ensures
        r == (match session {
            Some(InteractionSession::ControlPress(c)) => if c.armed { Some(c.control) } else { None },
            _ => None,
        }),
{
    match session {
        Some(InteractionSession::ControlPress(c)) => if c.armed { Some(c.control) } else { None },
        _ => None,
    }
}

/// The geometry a synthetic `ConfigureNotify` reports, in the event's
/// 16-bit fields.
#[derive(Debug, Clone, Copy, PartialEq, Eq, Structural, Hash)]
pub struct NotifyGeometry {
    pub x: i16,
    pub y: i16,
    pub width: u16,
    pub height: u16,
}

/// One native step of executing a plan.
#[derive(Debug, Clone, Copy, PartialEq, Eq, Structural, Hash)]
pub enum NativeOp {
    /// Unmap the capture window and release the pointer grab.
    ReleasePointer,
    /// Configure the frame window to a rectangle.
    ConfigureFrame { frame: u32, x: i32, y: i32, width: u32, height: u32 },
    /// Record the frame rectangle in the client's placement.
    CommitRect { x: i32, y: i32, w: i32, h: i32 },
    /// Move the frame window.
    MoveFrame { frame: u32, x: i32, y: i32 },
    /// Record the frame position in the client's placement.
    CommitPosition { x: i32, y: i32 },
    /// Configure the client window inside its frame.
    ConfigureClient { x: i32, y: i32, width: u32, height: u32 },
    /// Lay out the frame's input children.
    LayoutInput,
    /// Repaint the title bar.
    PaintChrome,
    /// Reset the frame's bounding shape.
    ApplyShape,
    /// Send the client a synthetic `ConfigureNotify`.
    NotifyClient(NotifyGeometry),
    /// Hide the snap preview.
    HidePreview,
}

pub open spec fn clamp_i16_spec(v: i32) -> i16 {
    if v < i16::MIN {
        i16::MIN
    } else if v > i16::MAX {
        i16::MAX
    } else {
        v as i16
    }
}

pub open spec fn clamp_u16_spec(v: u32) -> u16 {
    if v < 1 {
        1
    } else if v > 0xffff {
        0xffff
    } else {
        v as u16
    }
}

pub open spec fn at_least_one_i32(v: i32) -> u32 {
    if v < 1 {
        1
    } else {
        v as u32
    }
}

pub open spec fn at_least_one_u32(v: u32) -> u32 {
    if v < 1 {
        1
    } else {
        v
    }
}

/// The native steps one effect stands for. Frame steps need the client's
/// frame; grabs are made before the plan runs; only hiding the snap
/// preview is native.
pub open spec fn effect_ops(e: FrameEffect, frame: Option<u32>, ungrab: bool) -> Seq<NativeOp> {
    match e {
        FrameEffect::Grab { .. } => Seq::empty(),
        FrameEffect::Ungrab => if ungrab {
            seq![NativeOp::ReleasePointer]
        } else {
            Seq::empty()
        },
        FrameEffect::ConfigureFrameRoot { x, y, w, h } => match frame {
            Some(f) => seq![
                NativeOp::ConfigureFrame { frame: f, x, y, width: at_least_one_i32(w), height: at_least_one_i32(h) },
                NativeOp::CommitRect { x, y, w, h },
            ],
            None => Seq::empty(),
        },
        FrameEffect::MoveFrameRoot { x, y } => match frame {
            Some(f) => seq![NativeOp::MoveFrame { frame: f, x, y }, NativeOp::CommitPosition { x, y }],
            None => Seq::empty(),
        },
        FrameEffect::ConfigureClientLocal { x, y, w, h } => seq![
            NativeOp::ConfigureClient { x, y, width: at_least_one_u32(w), height: at_least_one_u32(h) },
        ],
        FrameEffect::LayoutInput => seq![NativeOp::LayoutInput],
        FrameEffect::PaintChrome => seq![NativeOp::PaintChrome],
        FrameEffect::ApplyShape => match frame {
            Some(_) => seq![NativeOp::ApplyShape],
            None => Seq::empty(),
        },
        FrameEffect::NotifyClientRoot { x, y, w, h } => seq![
            NativeOp::NotifyClient(
                NotifyGeometry {
                    x: clamp_i16_spec(x),
                    y: clamp_i16_spec(y),
                    width: clamp_u16_spec(at_least_one_u32(w)),
                    height: clamp_u16_spec(at_least_one_u32(h)),
                },
            ),
        ],
        FrameEffect::SnapPreview { target } => if target is None {
            seq![NativeOp::HidePreview]
        } else {
            Seq::empty()
        },
        FrameEffect::Noop => Seq::empty(),
    }
}

/// The native steps of a whole plan, effect by effect.
pub open spec fn plan_ops(effects: Seq<FrameEffect>, frame: Option<u32>, ungrab: bool) -> Seq<NativeOp>
    decreases effects.len(),
{
    if effects.len() == 0 {
        Seq::empty()
    } else {
        plan_ops(effects.drop_last(), frame, ungrab) + effect_ops(effects.last(), frame, ungrab)
    }
}

fn push_effect_ops(out: &mut Vec<NativeOp>, e: FrameEffect, frame: Option<u32>, ungrab: bool)
    ensures
        final(out)@ == old(out)@ + effect_ops(e, frame, ungrab),
{
    let ghost before = out@;
    match e {
        FrameEffect::Grab { .. } => {},
        FrameEffect::Ungrab => {
            if ungrab {
                out.push(NativeOp::ReleasePointer);
            }
        },
        FrameEffect::ConfigureFrameRoot { x, y, w, h } => {
            if let Some(f) = frame {
                let width: u32 = if w < 1 { 1 } else { w as u32 };
                let height: u32 = if h < 1 { 1 } else { h as u32 };
                out.push(NativeOp::ConfigureFrame { frame: f, x, y, width, height });
                out.push(NativeOp::CommitRect { x, y, w, h });
            }
        },
        FrameEffect::MoveFrameRoot { x, y } => {
            if let Some(f) = frame {
                out.push(NativeOp::MoveFrame { frame: f, x, y });
                out.push(NativeOp::CommitPosition { x, y });
            }
        },
        FrameEffect::ConfigureClientLocal { x, y, w, h } => {
            let width: u32 = if w < 1 { 1 } else { w };
            let height: u32 = if h < 1 { 1 } else { h };
            out.push(NativeOp::ConfigureClient { x, y, width, height });
        },
        FrameEffect::LayoutInput => out.push(NativeOp::LayoutInput),
        FrameEffect::PaintChrome => out.push(NativeOp::PaintChrome),
        FrameEffect::ApplyShape => {
            if frame.is_some() {
                out.push(NativeOp::ApplyShape);
            }
        },
        FrameEffect::NotifyClientRoot { x, y, w, h } => {
            let width: u32 = if w < 1 { 1 } else { w };
            let height: u32 = if h < 1 { 1 } else { h };
            out.push(
                NativeOp::NotifyClient(
                    NotifyGeometry {
                        x: crate::wm::release::clamp_i16(x),
                        y: crate::wm::release::clamp_i16(y),
                        width: crate::wm::release::clamp_u16(width),
                        height: crate::wm::release::clamp_u16(height),
                    },
                ),
            );
        },
        FrameEffect::SnapPreview { target } => {
            if target.is_none() {
                out.push(NativeOp::HidePreview);
            }
        },
        FrameEffect::Noop => {},
    }
    assert(out@ =~= before + effect_ops(e, frame, ungrab));
}

/// The native steps that execute a committed plan for a client whose
/// frame is `frame` (`None`: the client is gone).
pub fn native_ops(commit: &PointerCommit, frame: Option<u32>) -> (r: Vec<NativeOp>)
    ensures
        r@ == plan_ops(commit.effects@, frame, commit.ungrab),
{
    let mut out: Vec<NativeOp> = Vec::new();
    let mut i: usize = 0;
    while i < commit.effects.len()
        invariant
            i <= commit.effects@.len(),
            out@ == plan_ops(commit.effects@.take(i as int), frame, commit.ungrab),
        decreases commit.effects@.len() - i,
    {
        proof {
            assert(commit.effects@.take(i as int + 1).drop_last() =~= commit.effects@.take(i as int));
        }
        push_effect_ops(&mut out, commit.effects[i], frame, commit.ungrab);
        i += 1;
    }
    assert(commit.effects@.take(commit.effects@.len() as int) =~= commit.effects@);
    out
}

/// What follows the grab a plan asks for.
#[derive(Debug, Clone, Copy, PartialEq, Eq, Structural, Hash)]
pub enum GrabStep {
    /// No grab was needed, or it was granted: run the plan.
    Proceed,
    /// The grab failed: skip the plan, cancelling the session when asked.
    Stop { abort_session: bool },
}

pub fn grab_step(commit: &PointerCommit, granted: bool) -> (r: GrabStep)
    ensures
        r == (if commit.grab is Some && !granted {
            GrabStep::Stop { abort_session: commit.abort_on_grab_fail }
        } else {
            GrabStep::Proceed
        }),
{
    if commit.grab.is_some() && !granted {
        GrabStep::Stop { abort_session: commit.abort_on_grab_fail }
    } else {
        GrabStep::Proceed
    }
}

} // verus!
