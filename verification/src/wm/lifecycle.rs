//! Lifecycle transaction values: frame, client and input-child creation.
//!
//! The window manager creates the frame, reparents the client, configures
//! the client interior, creates and configures the twelve input children
//! and registers the resources; this module only computes the values, from
//! the one geometry source ([`FrameExtents`] and [`frame_to_client_local`]).

use vstd::prelude::*;
use crate::arith::{max_i32, max_int, pos_u32};
use crate::frame::coords::{ClientLocalRect, FrameRect, RootRect, pos_size};
use crate::frame::geometry::{FrameExtents, frame_to_client_local, frame_to_local};
use crate::frame::layout::{
    CONTROLS_WIDTH, RESIZE_T, all_children, layout_args_ok, layout_frame_children, layout_spec,
};
use crate::frame::resources::{FrameResources, child_seq};
use crate::chrome::IconImage;
use crate::client::{ManagedClient, WindowKind, placement_floating, rect_to_root};
use crate::frame::coords::{RootPoint, legacy_to_root};
use crate::frame::geometry::{
    GeometryPlan, GeometryReason, GeometryRequest, initial_map_frame, plan_initial_map, plan_of,
};
use crate::frame::model::{PlacementMode, PlacementSnapshot, PlacementState, ResizeEdges, edges};
use crate::geometry::Rect;
use crate::size_hints::{ClientSizeHints, hints_wf};

verus! {

/// The client, its frame and the twelve input-child XIDs in manage order:
/// 8 resize, title drag, 3 controls.
#[derive(Debug, Clone, Copy, PartialEq, Eq, Hash)]
pub struct LifecycleIds {
    pub client: u32,
    pub frame: u32,
    pub child_ids: [u32; 12],
}

/// The resource value the ids describe.
pub open spec fn ids_resources(ids: LifecycleIds) -> FrameResources {
    FrameResources {
        client: ids.client,
        frame: ids.frame,
        title_drag: ids.child_ids[8],
        controls: [ids.child_ids[9], ids.child_ids[10], ids.child_ids[11]],
        resize: [
            ids.child_ids[0], ids.child_ids[1], ids.child_ids[2], ids.child_ids[3],
            ids.child_ids[4], ids.child_ids[5], ids.child_ids[6], ids.child_ids[7],
        ],
    }
}

impl LifecycleIds {
    pub fn new(client: u32, frame: u32, child_ids: [u32; 12]) -> (r: Self)
        ensures
            r == (LifecycleIds { client, frame, child_ids }),
    {
        LifecycleIds { client, frame, child_ids }
    }

    /// The first eight ids: the resize children.
    pub fn resize(self) -> (r: [u32; 8])
        ensures
            r@ == self.child_ids@.subrange(0, 8),
    {
        let c = self.child_ids;
        let r = [c[0], c[1], c[2], c[3], c[4], c[5], c[6], c[7]];
        assert(r@ =~= self.child_ids@.subrange(0, 8));
        r
    }

    pub fn title_drag(self) -> (r: u32)
        ensures
            r == self.child_ids[8],
    {
        self.child_ids[8]
    }

    /// The last three ids: the controls.
    pub fn controls(self) -> (r: [u32; 3])
        ensures
            r@ == self.child_ids@.subrange(9, 12),
    {
        let c = self.child_ids;
        let r = [c[9], c[10], c[11]];
        assert(r@ =~= self.child_ids@.subrange(9, 12));
        r
    }

    /// Resource value for `FrameRegistry::register`.
    pub fn resources(self) -> (r: FrameResources)
        ensures
            r == ids_resources(self),
    {
        let c = self.child_ids;
        FrameResources::new(
            self.client,
            self.frame,
            c[8],
            [c[9], c[10], c[11]],
            [c[0], c[1], c[2], c[3], c[4], c[5], c[6], c[7]],
        )
    }

    /// Child ids in the registry's `children()` order.
    fn children_ordered(self) -> (r: [u32; 12])
        ensures
            r@ == child_seq(ids_resources(self)),
    {
        self.resources().children()
    }
}

/// Law: the resources' children list is exactly the ids in manage order.
pub proof fn lemma_ids_children_order(ids: LifecycleIds)
    ensures
        child_seq(ids_resources(ids)) == ids.child_ids@,
{
    assert(child_seq(ids_resources(ids)) =~= ids.child_ids@);
}

/// One input-child configure: a frame-local rect for a child XID.
#[derive(Debug, Clone, Copy, PartialEq, Eq, Structural, Hash)]
pub struct ChildPlacement {
    pub xid: u32,
    pub x: i32,
    pub y: i32,
    pub w: u32,
    pub h: u32,
}

/// Client interior: local origin `(0, titlebar)`, size `(frame.w,
/// frame.h - titlebar)`.
pub fn client_interior(frame: RootRect, extents: FrameExtents) -> (r: ClientLocalRect)
    ensures
        r == frame_to_local(frame, extents),
{
    frame_to_client_local(frame, extents)
}

/// Reparent offset of the client inside the frame.
pub fn reparent_offset(extents: FrameExtents) -> (r: (i32, i32))
    ensures
        r == (0i32, extents.titlebar_h),
{
    (0, extents.titlebar_h)
}

/// Client configure payload for the reparented client window.
pub fn client_configure(frame: RootRect, extents: FrameExtents) -> (r: (i32, i32, u32, u32))
    ensures
        ({
            let l = frame_to_local(frame, extents);
            r == (l.x, l.y, pos_size(l.w), pos_size(l.h))
        }),
{
    let local = client_interior(frame, extents);
    (local.x, local.y, pos_u32(local.w), pos_u32(local.h))
}

pub open spec fn placement_for(xid: u32, rect: FrameRect) -> ChildPlacement {
    ChildPlacement { xid, x: rect.x, y: rect.y, w: pos_size(rect.w), h: pos_size(rect.h) }
}

/// The layout the lifecycle places children by.
pub open spec fn lifecycle_layout(frame_w: i32, frame_h: i32, titlebar_h: i32) -> Seq<FrameRect> {
    all_children(
        layout_spec(
            max_int(frame_w as int, 1) as i32,
            max_int(frame_h as int, 1) as i32,
            titlebar_h,
            CONTROLS_WIDTH,
            RESIZE_T,
        ),
    )
}

/// Twelve input-child placements in `children()` order, ready for the
/// create/configure loop.
pub fn input_child_placements(frame_w: i32, frame_h: i32, titlebar_h: i32, ids: LifecycleIds) -> (r: [ChildPlacement; 12])
    requires
        layout_args_ok(max_int(frame_h as int, 1) as i32, titlebar_h, CONTROLS_WIDTH, RESIZE_T, max_int(frame_w as int, 1) as i32),
    ensures
        forall|i: int|
            0 <= i < 12 ==> #[trigger] r@[i] == placement_for(
                ids.child_ids[i],
                lifecycle_layout(frame_w, frame_h, titlebar_h)[i],
            ),
{
    let layout = layout_frame_children(max_i32(frame_w, 1), max_i32(frame_h, 1), titlebar_h, CONTROLS_WIDTH, RESIZE_T);
    let rs = layout.resize_rects();
    let rects: [FrameRect; 12] = [
        rs[0], rs[1], rs[2], rs[3], rs[4], rs[5], rs[6], rs[7],
        layout.title_drag, layout.controls[0], layout.controls[1], layout.controls[2],
    ];
    let xids = ids.children_ordered();
    proof {
        lemma_ids_children_order(ids);
        assert(rects@ =~= all_children(layout));
    }
    let mut out: Vec<ChildPlacement> = Vec::new();
    let mut i: usize = 0;
    while i < 12
        invariant
            0 <= i <= 12,
            out@.len() == i,
            xids@ == ids.child_ids@,
            rects@ == lifecycle_layout(frame_w, frame_h, titlebar_h),
            forall|k: int| 0 <= k < i ==> #[trigger] out@[k] == placement_for(ids.child_ids[k], rects@[k]),
        decreases 12 - i,
    {
        let rect = rects[i];
        out.push(ChildPlacement { xid: xids[i], x: rect.x, y: rect.y, w: pos_u32(rect.w), h: pos_u32(rect.h) });
        i += 1;
    }
    [out[0], out[1], out[2], out[3], out[4], out[5], out[6], out[7], out[8], out[9], out[10], out[11]]
}

/// How a window asking to be mapped is handled.
#[derive(Debug, Clone, Copy, PartialEq, Eq, Structural, Hash)]
pub enum ManageRoute {
    /// Already managed: just map it again.
    MapExisting,
    /// A popup is left alone.
    Ignore,
    /// A desktop window is mapped unframed, below everything.
    MapDesktop,
    /// A dock is mapped unframed and its strut reserved.
    MapDock,
    /// Anything else gets a frame.
    Frame,
}

pub open spec fn route_of(kind: WindowKind, managed: bool) -> ManageRoute {
    if managed {
        ManageRoute::MapExisting
    } else {
        match kind {
            WindowKind::Popup => ManageRoute::Ignore,
            WindowKind::Desktop => ManageRoute::MapDesktop,
            WindowKind::Dock => ManageRoute::MapDock,
            _ => ManageRoute::Frame,
        }
    }
}

pub fn manage_route(kind: WindowKind, managed: bool) -> (r: ManageRoute)
    ensures
        r == route_of(kind, managed),
{
    if managed {
        return ManageRoute::MapExisting;
    }
    match kind {
        WindowKind::Popup => ManageRoute::Ignore,
        WindowKind::Desktop => ManageRoute::MapDesktop,
        WindowKind::Dock => ManageRoute::MapDock,
        _ => ManageRoute::Frame,
    }
}

/// A new client opens on its transient owner's workspace, else on the
/// current one.
pub fn initial_workspace(owner_workspace: Option<usize>, current: usize) -> (r: usize)
    ensures
        r == (match owner_workspace {
            Some(w) => w,
            None => current,
        }),
{
    match owner_workspace {
        Some(w) => w,
        None => current,
    }
}

/// The initial-map request: a floating placeholder placement inside the
/// work area.
pub open spec fn initial_request(work_root: RootRect, hints: ClientSizeHints, extents: FrameExtents) -> GeometryRequest {
    GeometryRequest {
        reason: GeometryReason::InitialMap,
        start: PlacementSnapshot {
            mode: PlacementMode::Floating,
            rect: RootRect { x: 0, y: 0, w: 1, h: 1 },
        },
        pointer_delta: (0i32, 0i32),
        edges: edges(false, false, false, false),
        work_area: work_root,
        hints,
        frame_extents: extents,
    }
}

/// The first frame of a window mapped at `(x, y)` with size `w x h` (each
/// at least 1): the initial-map planner over the work area.
pub fn initial_frame_plan(
    work_root: RootRect,
    hints: ClientSizeHints,
    extents: FrameExtents,
    x: i16,
    y: i16,
    w: u16,
    h: u16,
) -> (r: GeometryPlan)
    requires
        hints_wf(hints),
    ensures
        r == plan_of(
            initial_request(work_root, hints, extents),
            initial_map_frame(
                initial_request(work_root, hints, extents),
                RootPoint { x: x as i32, y: y as i32 },
                (max_int(w as int, 1) as u32, max_int(h as int, 1) as u32),
            ),
        ),
{
    let req = GeometryRequest {
        reason: GeometryReason::InitialMap,
        start: PlacementSnapshot { mode: PlacementMode::Floating, rect: RootRect::new(0, 0, 1, 1) },
        pointer_delta: (0, 0),
        edges: ResizeEdges::none(),
        work_area: work_root,
        hints,
        frame_extents: extents,
    };
    let ww: u32 = if w >= 1 { w as u32 } else { 1 };
    let hh: u32 = if h >= 1 { h as u32 } else { 1 };
    plan_initial_map(&req, RootPoint::new(x as i32, y as i32), (ww, hh))
}

/// The record of a newly framed client: floating at `outer`, not
/// minimized or sticky, one self-inflicted unmap (the reparent) to ignore,
/// no hovered control.
pub fn new_managed_client(
    window: u32,
    frame: u32,
    outer: Rect,
    hints: ClientSizeHints,
    workspace: usize,
    title: String,
    title_text_width: i32,
    icon: Option<IconImage>,
    icon_fallback: Option<String>,
    transient_for: Option<u32>,
    kind: WindowKind,
) -> (r: ManagedClient)
    ensures
        r == (ManagedClient {
            client: window,
            frame,
            placement: PlacementState {
                mode: PlacementMode::Floating,
                current: legacy_to_root(outer),
                floating_restore: legacy_to_root(outer),
                resume: None,
            },
            hints,
            outer,
            workspace,
            title,
            title_text_width,
            icon,
            icon_fallback,
            transient_for,
            minimized: false,
            sticky: false,
            ignore_unmap: 1,
            kind,
            hover_control: None,
        }),
{
    ManagedClient {
        client: window,
        frame,
        placement: placement_floating(rect_to_root(outer)),
        hints,
        outer,
        workspace,
        title,
        title_text_width,
        icon,
        icon_fallback,
        transient_for,
        minimized: false,
        sticky: false,
        ignore_unmap: 1,
        kind,
        hover_control: None,
    }
}

} // verus!
