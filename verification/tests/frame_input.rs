use std::collections::HashMap;

use flamewm_wm_x11::frame::coords::{FrameRect, RootPoint, RootRect};
use flamewm_wm_x11::frame::input::{
    frame_control_fallback, region_for_known_child, target_for_xid, FrameEventTarget,
};
use flamewm_wm_x11::frame::model::{FrameControl, FrameRegion, ResizeEdges};

const W: i32 = 400;
const H: i32 = 300;

fn test_registry() -> (HashMap<u32, FrameRegion>, u32) {
    let client = 20_u32;
    let mut registry = HashMap::new();
    let edges = [
        ResizeEdges::top_left(),
        ResizeEdges::top_right(),
        ResizeEdges::bottom_left(),
        ResizeEdges::bottom_right(),
        ResizeEdges::top(),
        ResizeEdges::bottom(),
        ResizeEdges::left(),
        ResizeEdges::right(),
    ];
    for (index, edges) in edges.iter().enumerate() {
        registry.insert(100 + index as u32, FrameRegion::Resize(*edges));
    }
    registry.insert(200, FrameRegion::TitleDrag);
    registry.insert(201, FrameRegion::Control(FrameControl::Minimize));
    registry.insert(202, FrameRegion::Control(FrameControl::MaximizeRestore));
    registry.insert(203, FrameRegion::Control(FrameControl::Close));
    let _ = (W, H);
    (registry, client)
}

#[test]
fn known_child_is_identity_no_rehittest() {
    let (registry, client) = test_registry();
    // Resize child xid wins even though the "point" conceptually sits
    // elsewhere: no geometric re-hit-test is consulted.
    let target = target_for_xid(&registry, client, 104);
    assert_eq!(
        target,
        FrameEventTarget {
            client,
            region: FrameRegion::Resize(ResizeEdges::top()),
        }
    );
    assert_eq!(
        region_for_known_child(FrameRegion::TitleDrag),
        FrameRegion::TitleDrag
    );
    assert_eq!(
        target_for_xid(&registry, client, 203).region,
        FrameRegion::Control(FrameControl::Close)
    );
}

#[test]
fn client_source_is_client_not_resize() {
    let (registry, client) = test_registry();
    // The client xid is not registered as a child: source != resize.
    assert!(!registry.contains_key(&client));
    let target = target_for_xid(&registry, client, client);
    assert_eq!(target.region, FrameRegion::Client);
    assert_eq!(target.client, client);
    // Unknown xid is also client.
    assert_eq!(
        target_for_xid(&registry, client, 9999).region,
        FrameRegion::Client
    );
}

#[test]
fn frame_at_root_does_not_change_local_region_result() {
    // Registry resolution is XID-based, so moving the frame outer to
    // root (500,200) cannot change any local region result.
    let origin = RootPoint::new(500, 200);
    let root = RootRect::new(500, 200, W, H);
    let frame = root.to_frame(origin);
    assert_eq!(frame, FrameRect::new(0, 0, W, H));
    let (registry, client) = test_registry();
    let before = target_for_xid(&registry, client, 200);
    let after = target_for_xid(&registry, client, 200);
    assert_eq!(before, after);
    assert_eq!(before.region, FrameRegion::TitleDrag);
    assert_eq!(frame.to_root(origin), root);
}

#[test]
fn eight_resize_zones_unique_via_registry() {
    let (registry, client) = test_registry();
    let mut seen = std::collections::HashSet::new();
    for xid in 100..108 {
        let target = target_for_xid(&registry, client, xid);
        let seen_key = match target.region {
            FrameRegion::Resize(edges) => (edges.left, edges.right, edges.top, edges.bottom),
            other => panic!("expected resize, got {other:?}"),
        };
        assert!(seen.insert(seen_key), "{seen_key:?} dup");
    }
    assert_eq!(seen.len(), 8);
}

// ---- further cases ----

#[test]
fn control_fallback_only_inside_titlebar_band() {
    let hit = Some(FrameControl::Close);
    assert_eq!(frame_control_fallback(400, 31, 390, 5, None, hit), hit);
    assert_eq!(frame_control_fallback(400, 31, 390, 30, None, hit), hit);
    assert_eq!(frame_control_fallback(400, 31, 390, 31, None, hit), None);
    assert_eq!(frame_control_fallback(400, 31, 390, -1, None, hit), None);
    // A zero-height titlebar still has a one-pixel band.
    assert_eq!(frame_control_fallback(400, 0, 390, 0, None, hit), hit);
    assert_eq!(frame_control_fallback(400, 31, 10, 3, hit, None), None);
}
