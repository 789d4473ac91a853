use flamewm_wm_x11::cursor::CursorKind;
use flamewm_wm_x11::frame::coords::{FrameRect, RootPoint, RootRect};
use flamewm_wm_x11::frame::model::{
    FrameControl, FrameRegion, PlacementMode, PlacementSnapshot, PlacementState, ResizeEdges,
    SnapTarget,
};
use flamewm_wm_x11::geometry::Rect;

#[test]
fn resize_edges_helpers_and_corners() {
    assert!(ResizeEdges::none().is_empty());
    assert!(!ResizeEdges::left().is_empty());
    assert!(!ResizeEdges::left().is_corner());
    assert!(!ResizeEdges::top().is_corner());
    assert!(ResizeEdges::top_left().is_corner());
    assert!(ResizeEdges::top_right().is_corner());
    assert!(ResizeEdges::bottom_left().is_corner());
    assert!(ResizeEdges::bottom_right().is_corner());
    // Opposite pairs are not corners.
    let both_h = ResizeEdges {
        left: true,
        right: true,
        top: false,
        bottom: false,
    };
    assert!(!both_h.is_corner());
    assert!(!both_h.is_empty());
}

#[test]
fn placement_transitions_are_value_only() {
    let floating = RootRect::new(500, 200, 400, 300);
    let maximized = RootRect::new(0, 0, 1920, 1080);
    let mut state = PlacementState {
        mode: PlacementMode::Floating,
        current: floating,
        floating_restore: floating,
        resume: None,
    };
    // Maximize: remember floating rect, move current.
    state.resume = Some(PlacementSnapshot {
        mode: state.mode,
        rect: state.current,
    });
    state.mode = PlacementMode::Maximized;
    state.current = maximized;
    assert_eq!(state.floating_restore, floating);
    assert_eq!(
        state.resume,
        Some(PlacementSnapshot {
            mode: PlacementMode::Floating,
            rect: floating,
        })
    );
    // Restore from resume snapshot.
    let snap = state.resume.expect("resume snapshot");
    state.mode = snap.mode;
    state.current = snap.rect;
    state.resume = None;
    assert_eq!(state.mode, PlacementMode::Floating);
    assert_eq!(state.current, floating);
    assert_eq!(state.resume, None);
}

#[test]
fn snapped_and_fullscreen_modes_hold_rects() {
    let left_rect = RootRect::new(0, 0, 960, 1080);
    let state = PlacementState {
        mode: PlacementMode::Snapped(SnapTarget::Left),
        current: left_rect,
        floating_restore: RootRect::new(500, 200, 400, 300),
        resume: Some(PlacementSnapshot {
            mode: PlacementMode::Floating,
            rect: RootRect::new(500, 200, 400, 300),
        }),
    };
    assert_eq!(state.mode, PlacementMode::Snapped(SnapTarget::Left));
    assert_eq!(state.current, left_rect);
    let fs = PlacementState {
        mode: PlacementMode::Fullscreen,
        current: RootRect::new(0, 0, 1920, 1080),
        floating_restore: state.floating_restore,
        resume: state.resume,
    };
    assert_eq!(fs.mode, PlacementMode::Fullscreen);
    // Regions carry their payloads.
    let region = FrameRegion::Resize(ResizeEdges::bottom_right());
    assert_eq!(region, FrameRegion::Resize(ResizeEdges::bottom_right()));
    let control = FrameRegion::Control(FrameControl::Close);
    assert_eq!(control, FrameRegion::Control(FrameControl::Close));
    // Coords bridge check with nonzero origin (500,200).
    let origin = RootPoint::new(500, 200);
    let frame = FrameRect::new(0, 0, 400, 300);
    assert_eq!(frame.to_root(origin), state.floating_restore);
}

// ---- further cases ----

#[test]
fn resize_cursor_kinds_follow_edges() {
    assert_eq!(ResizeEdges::left().cursor_kind(), CursorKind::ResizeHorizontal);
    assert_eq!(ResizeEdges::right().cursor_kind(), CursorKind::ResizeHorizontal);
    assert_eq!(ResizeEdges::top().cursor_kind(), CursorKind::ResizeVertical);
    assert_eq!(ResizeEdges::bottom().cursor_kind(), CursorKind::ResizeVertical);
    assert_eq!(ResizeEdges::top_left().cursor_kind(), CursorKind::ResizeNorthWestSouthEast);
    assert_eq!(ResizeEdges::bottom_right().cursor_kind(), CursorKind::ResizeNorthWestSouthEast);
    assert_eq!(ResizeEdges::top_right().cursor_kind(), CursorKind::ResizeNorthEastSouthWest);
    assert_eq!(ResizeEdges::bottom_left().cursor_kind(), CursorKind::ResizeNorthEastSouthWest);
    assert_eq!(ResizeEdges::none().cursor_kind(), CursorKind::Default);
    assert_eq!(ResizeEdges::default(), ResizeEdges::none());
}

#[test]
fn resized_rect_keeps_fixed_edge_and_minimum() {
    let original = Rect::new(100, 100, 400, 300);
    // Dragging the left edge far right stops 160 px before the right edge.
    let r = ResizeEdges::resized_rect(original, ResizeEdges::left(), 1000, 0);
    assert_eq!(r, Rect::new(340, 100, 160, 300));
    // Dragging the bottom edge far up keeps 96 px of height.
    let r = ResizeEdges::resized_rect(original, ResizeEdges::bottom(), 0, -1000);
    assert_eq!(r, Rect::new(100, 100, 400, 96));
    let r = ResizeEdges::resized_rect(original, ResizeEdges::bottom_right(), 30, 40);
    assert_eq!(r, Rect::new(100, 100, 430, 340));
}

#[test]
fn resize_from_left_preserves_right_edge() {
    let start = Rect::new(100, 100, 600, 400);
    let edges = ResizeEdges {
        left: true,
        ..ResizeEdges::default()
    };
    let resized = ResizeEdges::resized_rect(start, edges, 100, 0);
    assert_eq!(resized, Rect::new(200, 100, 500, 400));
}

#[test]
fn resize_enforces_minimum_size() {
    let start = Rect::new(100, 100, 600, 400);
    let edges = ResizeEdges {
        left: true,
        top: true,
        ..ResizeEdges::default()
    };
    let resized = ResizeEdges::resized_rect(start, edges, 1_000, 1_000);
    assert_eq!(resized.width, 160);
    assert_eq!(resized.height, 96);
}

#[test]
fn cursor_kind_covers_eight_directions() {
    let corner_nw = ResizeEdges {
        left: true,
        top: true,
        ..ResizeEdges::default()
    };
    assert_eq!(corner_nw.cursor_kind(), CursorKind::ResizeNorthWestSouthEast);
    let corner_se = ResizeEdges {
        right: true,
        bottom: true,
        ..ResizeEdges::default()
    };
    assert_eq!(corner_se.cursor_kind(), CursorKind::ResizeNorthWestSouthEast);
    let corner_ne = ResizeEdges {
        right: true,
        top: true,
        ..ResizeEdges::default()
    };
    assert_eq!(corner_ne.cursor_kind(), CursorKind::ResizeNorthEastSouthWest);
    let corner_sw = ResizeEdges {
        left: true,
        bottom: true,
        ..ResizeEdges::default()
    };
    assert_eq!(corner_sw.cursor_kind(), CursorKind::ResizeNorthEastSouthWest);
    let west = ResizeEdges {
        left: true,
        ..ResizeEdges::default()
    };
    assert_eq!(west.cursor_kind(), CursorKind::ResizeHorizontal);
    let east = ResizeEdges {
        right: true,
        ..ResizeEdges::default()
    };
    assert_eq!(east.cursor_kind(), CursorKind::ResizeHorizontal);
    let north = ResizeEdges {
        top: true,
        ..ResizeEdges::default()
    };
    assert_eq!(north.cursor_kind(), CursorKind::ResizeVertical);
    let south = ResizeEdges {
        bottom: true,
        ..ResizeEdges::default()
    };
    assert_eq!(south.cursor_kind(), CursorKind::ResizeVertical);
    assert_eq!(ResizeEdges::default().cursor_kind(), CursorKind::Default);
}
