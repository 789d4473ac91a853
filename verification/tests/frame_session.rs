use flamewm_wm_x11::frame::coords::{RootPoint, RootRect};
use flamewm_wm_x11::frame::model::{FrameControl, PlacementMode, PlacementSnapshot, ResizeEdges};
use flamewm_wm_x11::frame::session::{
    maximized_restore_rect, ControlPressSession, InteractionSession, MoveAnchor, MoveSession,
    ResizeSession,
};

/// Horizontal anchor fraction clamped to `0..=1`.
fn fraction(anchor: MoveAnchor) -> f32 {
    if anchor.frac_den == 0 {
        return 0.0;
    }
    let f = anchor.frac_num as f32 / anchor.frac_den as f32;
    f.clamp(0.0, 1.0)
}

fn snap() -> PlacementSnapshot {
    PlacementSnapshot {
        mode: PlacementMode::Floating,
        rect: RootRect::new(500, 200, 400, 300),
    }
}

fn move_session() -> MoveSession {
    MoveSession {
        client: 7,
        start_pointer: RootPoint::new(520, 230),
        start_placement: snap(),
        anchor: MoveAnchor::new(20, 400, 30),
        grab_window: 99,
    }
}

#[test]
fn move_delta_is_absolute_from_start() {
    let mut s = InteractionSession::Idle;
    s.begin_move(move_session());
    assert_eq!(
        s.update_motion(RootPoint::new(520, 230)),
        Some(RootPoint::new(0, 0))
    );
    assert_eq!(
        s.update_motion(RootPoint::new(560, 250)),
        Some(RootPoint::new(40, 20))
    );
    // Repeated motion stays relative to start, not incremental.
    assert_eq!(
        s.update_motion(RootPoint::new(530, 235)),
        Some(RootPoint::new(10, 5))
    );
}

#[test]
fn resize_edge_lock_preserved() {
    let edges = ResizeEdges::top_left();
    let mut s = InteractionSession::Idle;
    s.begin_resize(ResizeSession {
        client: 7,
        start_pointer: RootPoint::new(500, 200),
        start_placement: snap(),
        edges,
        grab_window: 99,
    });
    assert!(matches!(
        s,
        InteractionSession::Resize(r) if r.edges == ResizeEdges::top_left()
    ));
    // Motion reports delta; locked edges unchanged.
    assert_eq!(
        s.update_motion(RootPoint::new(490, 190)),
        Some(RootPoint::new(-10, -10))
    );
    assert!(matches!(
        s,
        InteractionSession::Resize(r) if r.edges == ResizeEdges::top_left()
    ));
}

#[test]
fn control_arm_disarm() {
    let mut s = InteractionSession::Idle;
    s.begin_control(ControlPressSession::new(7, FrameControl::Close, 99));
    assert!(matches!(
        s,
        InteractionSession::ControlPress(c) if c.armed
    ));
    s.control_leave();
    assert!(matches!(
        s,
        InteractionSession::ControlPress(c) if !c.armed
    ));
    s.control_enter();
    assert!(matches!(
        s,
        InteractionSession::ControlPress(c) if c.armed
    ));
    // Motion is N/A for control presses.
    assert_eq!(s.update_motion(RootPoint::new(0, 0)), None);
}

#[test]
fn final_release_applies_last_point() {
    let mut s = InteractionSession::Idle;
    s.begin_move(move_session());
    let last = RootPoint::new(600, 400);
    assert_eq!(s.finish(last), Some(last));
    assert_eq!(s, InteractionSession::Idle);
    // Finishing while idle yields nothing.
    assert_eq!(s.finish(last), None);
}

#[test]
fn cancel_returns_to_idle() {
    let mut s = InteractionSession::Idle;
    s.begin_resize(ResizeSession {
        client: 7,
        start_pointer: RootPoint::new(500, 200),
        start_placement: snap(),
        edges: ResizeEdges::bottom_right(),
        grab_window: 99,
    });
    s.cancel();
    assert_eq!(s, InteractionSession::Idle);
    assert_eq!(s.update_motion(RootPoint::new(510, 210)), None);
}

#[test]
fn max_restore_anchor_no_jump() {
    let restore = RootRect::new(0, 0, 400, 300);
    let pointer = RootPoint::new(1000, 10);
    // Pointer grabbed at 1/4 across the maximized width.
    let placed = maximized_restore_rect(restore, pointer, 1, 4, 10, 24);
    assert_eq!(placed.w, 400);
    assert_eq!(placed.h, 300);
    assert_eq!(placed.x, 1000 - 100);
    assert_eq!(placed.y, 0);
    // Anchor fraction preserved: pointer sits at frac across placed rect.
    let frac = fraction(MoveAnchor::new(1, 4, 10));
    let got = (pointer.x - placed.x) as f32 / placed.w as f32;
    assert!((got - frac).abs() < 1e-6);
    assert_eq!(pointer.y - placed.y, 10);
    // Clamps: over-range fraction and vertical offset.
    let clamped = maximized_restore_rect(restore, pointer, 9, 4, 99, 24);
    assert_eq!(clamped.x, 1000 - 400);
    assert_eq!(clamped.y, pointer.y - 24);
    // Zero denominator degrades to left edge anchor.
    let zero = maximized_restore_rect(restore, pointer, 1, 0, 5, 24);
    assert_eq!(zero.x, pointer.x);
}

// ---- further cases ----

#[test]
fn arm_then_disarm_restores_session_law_example() {
    let start = ControlPressSession::new(3, FrameControl::MaximizeRestore, 11);
    let mut s = InteractionSession::ControlPress(start);
    s.control_leave();
    s.control_enter();
    assert_eq!(s, InteractionSession::ControlPress(start));
    // Enter/leave are no-ops outside a control press.
    let mut idle = InteractionSession::Idle;
    idle.control_leave();
    assert_eq!(idle, InteractionSession::Idle);
    assert!(idle.is_idle());
    assert_eq!(InteractionSession::default(), InteractionSession::Idle);
}

#[test]
fn restore_rounds_half_away_from_zero() {
    let restore = RootRect::new(0, 0, 401, 300);
    let pointer = RootPoint::new(1000, 10);
    // 401 / 2 = 200.5 -> 201.
    let placed = maximized_restore_rect(restore, pointer, 1, 2, 0, 24);
    assert_eq!(placed.x, 1000 - 201);
    // 401 / 3 = 133.67 -> 134; the pointer stays inside the rect.
    let placed = maximized_restore_rect(restore, pointer, 1, 3, -5, 24);
    assert_eq!(placed.x, 1000 - 134);
    assert_eq!(placed.y, 10);
    // A negative titlebar height clamps the vertical offset to zero.
    let placed = maximized_restore_rect(restore, pointer, 1, 3, 7, -4);
    assert_eq!(placed.y, 10);
}

#[test]
fn new_anchor_is_not_activated() {
    let a = MoveAnchor::new(3, 8, 12);
    assert_eq!((a.frac_num, a.frac_den, a.vertical_offset), (3, 8, 12));
    assert!(!a.activated);
}
