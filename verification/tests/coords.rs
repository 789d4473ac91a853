use flamewm_wm_x11::frame::coords::{
    ClientLocalPoint, ClientLocalRect, ClientRootRect, FramePoint, FrameRect, RootPoint, RootRect,
};
use flamewm_wm_x11::geometry::Rect;

#[test]
fn point_roundtrip_nonzero_origin() {
    let origin = RootPoint::new(500, 200);
    let root = RootPoint::new(520, 230);
    let frame = root.to_frame(origin);
    assert_eq!(frame, FramePoint::new(20, 30));
    assert_eq!(frame.to_root(origin), root);
}

#[test]
fn rect_crossing_nonzero_origin() {
    let origin = RootPoint::new(500, 200);
    let root = RootRect::new(500, 200, 400, 300);
    let frame = root.to_frame(origin);
    assert_eq!(frame, FrameRect::new(0, 0, 400, 300));
    assert_eq!(frame.to_root(origin), root);
}

#[test]
fn origin_rect_and_negative_offsets() {
    let origin = RootPoint::new(500, 200);
    let root = RootRect::new(480, 190, 100, 50);
    let frame = root.to_frame(origin);
    assert_eq!(frame, FrameRect::new(-20, -10, 100, 50));
    assert_eq!(frame.to_root(origin), root);
    assert_eq!(root.origin(), RootPoint::new(480, 190));
    assert_eq!(FramePoint::new(0, 0).to_root(origin), origin);
}

#[test]
fn client_local_types_constructible() {
    let p = ClientLocalPoint::new(0, 31);
    assert_eq!((p.x, p.y), (0, 31));
    let r = ClientLocalRect::new(0, 31, 400, 269);
    assert_eq!((r.x, r.y, r.w, r.h), (0, 31, 400, 269));
}

#[test]
fn client_root_rect_origin_and_size() {
    let r = ClientRootRect::new(400, 231, 400, 269);
    assert_eq!(r.origin(), RootPoint::new(400, 231));
    assert_eq!(r.size_u32(), (400, 269));
}

#[test]
fn coords_synthetic_root_differs_from_local_at_nonzero_origin() {
    // Frame at (400,200): client local origin is (0,titlebar) while the
    // synthetic client-root rect carries the frame offset.
    let local = ClientLocalRect::new(0, 31, 400, 269);
    let root = ClientRootRect::new(400, 231, 400, 269);
    assert_ne!((local.x, local.y), (root.x, root.y));
    assert_eq!((local.w, local.h), (root.w, root.h));
    assert_eq!(root.origin(), RootPoint::new(400, 231));
}

// ---- further cases ----

#[test]
fn crossing_saturates_at_i32_limits() {
    let origin = RootPoint::new(i32::MIN, 0);
    let p = RootPoint::new(i32::MAX, 5).to_frame(origin);
    assert_eq!(p, FramePoint::new(i32::MAX, 5));
    let back = FramePoint::new(i32::MAX, 0).to_root(RootPoint::new(10, 0));
    assert_eq!(back, RootPoint::new(i32::MAX, 0));
}

#[test]
fn nonpositive_sizes_read_as_one_u32() {
    assert_eq!(ClientRootRect::new(0, 0, -5, 7).size_u32(), (1, 7));
    assert_eq!(ClientRootRect::new(0, 0, 0, 0).size_u32(), (1, 1));
}

#[test]
fn legacy_rect_roundtrip_law_example() {
    let legacy = Rect::new(-30, 40, 640, 480);
    let root = RootRect::from_legacy(legacy);
    assert_eq!(root, RootRect::new(-30, 40, 640, 480));
    assert_eq!(root.to_legacy(), legacy);
    // Oversized widths saturate into i32 and come back as i32::MAX.
    let huge = RootRect::from_legacy(Rect::new(0, 0, u32::MAX, 1));
    assert_eq!(huge.w, i32::MAX);
    // Non-positive sizes are raised to one in the legacy form.
    assert_eq!(RootRect::new(1, 2, -3, 0).to_legacy(), Rect::new(1, 2, 1, 1));
}
