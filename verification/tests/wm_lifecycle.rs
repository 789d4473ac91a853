use std::collections::HashMap;

use flamewm_wm_x11::client::{placement_floating, root_to_rect, ManagedClient, WindowKind};
use flamewm_wm_x11::frame::controller::{ControllerState, FrameEffect, FrameEvent};
use flamewm_wm_x11::frame::coords::{RootPoint, RootRect};
use flamewm_wm_x11::frame::geometry::FrameExtents;
use flamewm_wm_x11::frame::model::{
    FrameControl, PlacementMode, PlacementSnapshot, PlacementState, SnapTarget,
};
use flamewm_wm_x11::frame::session::{
    ControlPressSession, InteractionSession, MoveAnchor, MoveSession,
};
use flamewm_wm_x11::geometry::Rect;
use flamewm_wm_x11::size_hints::ClientSizeHints;
use flamewm_wm_x11::wm::configure::{
    commit_configure, plan_configure_request, request_size,
};
use flamewm_wm_x11::wm::interaction::{
    all_noop, commit_frame_position, commit_frame_rect, drag_away_from_tiled, is_move_event,
    pressed_control, store_controller,
};
use flamewm_wm_x11::wm::lifecycle::{
    initial_frame_plan, initial_workspace, manage_route, new_managed_client, ManageRoute,
};

const EXT: FrameExtents = FrameExtents { titlebar_h: 31, border: 1 };
const WA: RootRect = RootRect { x: 0, y: 0, w: 1920, h: 1080 };

fn client_with(placement: PlacementState) -> ManagedClient {
    ManagedClient {
        client: 1,
        frame: 2,
        placement,
        hints: ClientSizeHints::default(),
        outer: root_to_rect(placement.current),
        workspace: 3,
        title: String::from("t"),
        title_text_width: 7,
        icon: None,
        icon_fallback: None,
        transient_for: None,
        minimized: false,
        sticky: false,
        ignore_unmap: 0,
        kind: WindowKind::Normal,
        hover_control: None,
    }
}

fn controller_for(placement: PlacementState) -> ControllerState {
    ControllerState::new(1, 2, placement, WA, ClientSizeHints::default(), EXT)
}

fn move_session() -> MoveSession {
    MoveSession {
        client: 1,
        start_pointer: RootPoint::new(0, 0),
        start_placement: PlacementSnapshot {
            mode: PlacementMode::Floating,
            rect: RootRect::new(100, 100, 400, 300),
        },
        anchor: MoveAnchor::new(1, 2, 3),
        grab_window: 2,
    }
}

#[test]
fn manage_routes_by_kind() {
    assert_eq!(manage_route(WindowKind::Normal, true), ManageRoute::MapExisting);
    assert_eq!(manage_route(WindowKind::Popup, false), ManageRoute::Ignore);
    assert_eq!(manage_route(WindowKind::Desktop, false), ManageRoute::MapDesktop);
    assert_eq!(manage_route(WindowKind::Dock, false), ManageRoute::MapDock);
    assert_eq!(manage_route(WindowKind::Utility, false), ManageRoute::Frame);
    assert_eq!(initial_workspace(Some(2), 0), 2);
    assert_eq!(initial_workspace(None, 5), 5);
}

#[test]
fn initial_frame_fits_client_under_titlebar() {
    let plan = initial_frame_plan(WA, ClientSizeHints::default(), EXT, 100, 131, 400, 269);
    assert_eq!(plan.frame, RootRect::new(100, 100, 400, 300));
    assert_eq!(plan.client_size, (400, 269));
    // Zero sizes count as one pixel; the frame is pulled into the work area.
    let tiny = initial_frame_plan(WA, ClientSizeHints::default(), EXT, -50, 0, 0, 0);
    assert_eq!(tiny.frame, RootRect::new(0, 0, 1, 32));
}

#[test]
fn new_client_starts_floating_and_expects_one_unmap() {
    let outer = Rect::new(10, 20, 300, 231);
    let c = new_managed_client(
        7,
        8,
        outer,
        ClientSizeHints::default(),
        2,
        String::from("app"),
        21,
        None,
        None,
        Some(3),
        WindowKind::Utility,
    );
    assert_eq!(c.placement, placement_floating(RootRect::new(10, 20, 300, 231)));
    assert_eq!(c.outer, outer);
    assert_eq!(c.ignore_unmap, 1);
    assert_eq!((c.client, c.frame, c.workspace), (7, 8, 2));
    assert_eq!(c.transient_for, Some(3));
    assert!(!c.minimized && !c.sticky);
    assert_eq!(c.hover_control, None);
}

#[test]
fn frame_position_commit_keeps_size() {
    let start = placement_floating(RootRect::new(100, 100, 400, 300));
    let mut state = client_with(start);
    let mut session = controller_for(start);
    commit_frame_position(&mut state, &mut session, 150, 160);
    assert_eq!(state.placement.current, RootRect::new(150, 160, 400, 300));
    assert_eq!(state.placement.floating_restore, RootRect::new(150, 160, 400, 300));
    assert_eq!(state.outer, Rect::new(150, 160, 400, 300));
    assert_eq!(session.placement.current, RootRect::new(150, 160, 400, 300));
    assert_eq!(state.workspace, 3);
}

#[test]
fn frame_rect_commit_snapped_keeps_restore() {
    let snapped = PlacementState {
        mode: PlacementMode::Snapped(SnapTarget::Left),
        current: RootRect::new(0, 0, 960, 1080),
        floating_restore: RootRect::new(100, 100, 400, 300),
        resume: None,
    };
    let mut state = client_with(snapped);
    let mut session = controller_for(snapped);
    commit_frame_rect(&mut state, &mut session, 5, 6, 0, 700);
    assert_eq!(state.placement.current, RootRect::new(5, 6, 1, 700));
    assert_eq!(state.placement.floating_restore, RootRect::new(100, 100, 400, 300));
    assert_eq!(state.outer, Rect::new(5, 6, 1, 700));
    assert_eq!(session.placement.current, RootRect::new(5, 6, 1, 700));
}

#[test]
fn configure_request_plans_from_current_client_geometry() {
    let start = placement_floating(RootRect::new(100, 100, 400, 300));
    // Only a width: keeps the client origin and height.
    let plan = plan_configure_request(
        start,
        WA,
        ClientSizeHints::default(),
        EXT,
        false,
        false,
        0,
        0,
        true,
        false,
        500,
        0,
    );
    assert_eq!(plan.frame, RootRect::new(100, 100, 500, 300));
    // Only a position: moves the frame so the client lands there.
    let plan = plan_configure_request(
        start,
        WA,
        ClientSizeHints::default(),
        EXT,
        true,
        true,
        10,
        41,
        false,
        false,
        0,
        0,
    );
    assert_eq!(plan.frame, RootRect::new(10, 10, 400, 300));
    assert_eq!(request_size(false, false, 1, 1, (4, 5)), None);
    assert_eq!(request_size(true, true, 0, 9, (4, 5)), Some((1, 9)));
    assert_eq!(request_size(false, true, 3, 9, (4, 5)), Some((4, 9)));
    let mut state = client_with(start);
    commit_configure(&mut state, RootRect::new(1, 2, 3, 40));
    assert_eq!(state.placement.current, RootRect::new(1, 2, 3, 40));
    assert_eq!(state.placement.floating_restore, RootRect::new(1, 2, 3, 40));
    assert_eq!(state.outer, Rect::new(1, 2, 3, 40));
}

#[test]
fn reduce_bookkeeping_predicates() {
    let m = InteractionSession::Move(move_session());
    let motion = FrameEvent::Motion {
        pointer: RootPoint::new(1, 1),
    };
    assert!(is_move_event(m, motion));
    assert!(is_move_event(m, FrameEvent::Release { pointer: RootPoint::new(1, 1) }));
    assert!(!is_move_event(m, FrameEvent::ToggleMax));
    assert!(!is_move_event(InteractionSession::Idle, motion));
    assert!(drag_away_from_tiled(m, PlacementMode::Maximized, PlacementMode::Floating));
    assert!(drag_away_from_tiled(
        m,
        PlacementMode::Snapped(SnapTarget::Right),
        PlacementMode::Floating
    ));
    assert!(!drag_away_from_tiled(m, PlacementMode::Floating, PlacementMode::Floating));
    assert!(!drag_away_from_tiled(
        InteractionSession::Idle,
        PlacementMode::Maximized,
        PlacementMode::Floating
    ));
    assert!(all_noop(&vec![FrameEffect::Noop, FrameEffect::Noop]));
    assert!(all_noop(&vec![]));
    assert!(!all_noop(&vec![FrameEffect::Noop, FrameEffect::Ungrab]));
    let mut press = ControlPressSession::new(1, FrameControl::Minimize, 2);
    assert_eq!(
        pressed_control(Some(InteractionSession::ControlPress(press))),
        Some(FrameControl::Minimize)
    );
    press.leave();
    assert_eq!(pressed_control(Some(InteractionSession::ControlPress(press))), None);
    assert_eq!(pressed_control(None), None);
}

#[test]
fn store_controller_mirrors_placement_into_client() {
    let start = placement_floating(RootRect::new(100, 100, 400, 300));
    let mut next = controller_for(start);
    next.placement.current = RootRect::new(0, 0, 1920, 1080);
    next.placement.mode = PlacementMode::Maximized;
    let mut sessions: HashMap<u32, ControllerState> = HashMap::new();
    let mut state = client_with(start);
    store_controller(&mut sessions, Some(&mut state), 1, &next);
    assert_eq!(state.placement, next.placement);
    assert_eq!(state.outer, Rect::new(0, 0, 1920, 1080));
    assert_eq!(state.title, "t");
    assert_eq!(sessions.get(&1).map(|s| s.placement), Some(next.placement));
}
