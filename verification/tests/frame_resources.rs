use flamewm_wm_x11::cursor::CursorKind;
use flamewm_wm_x11::frame::model::{FrameControl, FrameRegion, ResizeEdges};
use flamewm_wm_x11::frame::resources::{
    cursor_for_edges, cursor_for_region, FrameRegistry, FrameResources, INPUT_CHILD_EVENT_MASK,
    MASK_ENTER_WINDOW, MASK_LEAVE_WINDOW, MASK_POINTER_MOTION,
};

fn sample(client: u32, base: u32) -> FrameResources {
    FrameResources::new(
        client,
        base,
        base + 8,
        [base + 9, base + 10, base + 11],
        [
            base,
            base + 1,
            base + 2,
            base + 3,
            base + 4,
            base + 5,
            base + 6,
            base + 7,
        ],
    )
}

#[test]
fn register_lookup_remove_roundtrip() {
    let mut reg = FrameRegistry::new();
    let res = sample(100, 1000);
    assert!(reg.register(res).is_empty());
    assert_eq!(reg.lookup_by_client(100), Some(res));
    let target = reg.lookup_by_xid(1008).expect("title child");
    assert_eq!(target.client, 100);
    assert_eq!(target.region, FrameRegion::TitleDrag);
    let removed = reg.remove_client(100);
    assert_eq!(removed.len(), 12);
    assert_eq!(reg.lookup_by_client(100), None);
    assert!(reg.is_empty());
}

#[test]
fn remove_leaves_no_orphan_xids() {
    let mut reg = FrameRegistry::new();
    reg.register(sample(1, 100));
    reg.register(sample(2, 200));
    assert_eq!(reg.xid_count(), 24);
    let removed = reg.remove_client(1);
    assert_eq!(removed.len(), 12);
    assert_eq!(reg.xid_count(), 12);
    for xid in removed {
        assert_eq!(reg.lookup_by_xid(xid), None);
    }
    // Survivor still fully mapped.
    assert!(reg.lookup_by_client(2).is_some());
    assert!(reg.lookup_by_xid(208).is_some());
    // Unknown client removes nothing.
    assert!(reg.remove_client(999).is_empty());
    assert_eq!(reg.xid_count(), 12);
}

#[test]
fn all_twelve_targets_map_to_one_client() {
    let mut reg = FrameRegistry::new();
    let res = sample(42, 500);
    reg.register(res);
    let mut count = 0;
    for xid in res.children() {
        let target = reg.lookup_by_xid(xid).expect("child maps");
        assert_eq!(target.client, 42);
        count += 1;
    }
    assert_eq!(count, 12);
    // Regions: 8 resize + 1 title + 3 controls.
    let mut resize = 0;
    let mut title = 0;
    let mut controls = 0;
    for xid in res.children() {
        match reg.lookup_by_xid(xid).expect("child maps").region {
            FrameRegion::Resize(_) => resize += 1,
            FrameRegion::TitleDrag => title += 1,
            FrameRegion::Control(_) => controls += 1,
            FrameRegion::Client => panic!("unexpected region"),
        }
    }
    assert_eq!((resize, title, controls), (8, 1, 3));
}

#[test]
fn cursor_bindings_match_contract() {
    assert_eq!(
        cursor_for_region(FrameRegion::Resize(ResizeEdges::top())),
        CursorKind::ResizeVertical
    );
    assert_eq!(
        cursor_for_region(FrameRegion::Resize(ResizeEdges::bottom())),
        CursorKind::ResizeVertical
    );
    assert_eq!(
        cursor_for_region(FrameRegion::Resize(ResizeEdges::left())),
        CursorKind::ResizeHorizontal
    );
    assert_eq!(
        cursor_for_region(FrameRegion::Resize(ResizeEdges::right())),
        CursorKind::ResizeHorizontal
    );
    assert_eq!(
        cursor_for_region(FrameRegion::Resize(ResizeEdges::top_left())),
        CursorKind::ResizeNorthWestSouthEast
    );
    assert_eq!(
        cursor_for_region(FrameRegion::Resize(ResizeEdges::bottom_right())),
        CursorKind::ResizeNorthWestSouthEast
    );
    assert_eq!(
        cursor_for_region(FrameRegion::Resize(ResizeEdges::top_right())),
        CursorKind::ResizeNorthEastSouthWest
    );
    assert_eq!(
        cursor_for_region(FrameRegion::Resize(ResizeEdges::bottom_left())),
        CursorKind::ResizeNorthEastSouthWest
    );
    assert_eq!(cursor_for_region(FrameRegion::TitleDrag), CursorKind::Move);
    assert_eq!(
        cursor_for_region(FrameRegion::Control(FrameControl::Close)),
        CursorKind::Default
    );
}

#[test]
fn child_mask_includes_leave_window() {
    assert_ne!(INPUT_CHILD_EVENT_MASK & MASK_LEAVE_WINDOW, 0);
    assert_ne!(INPUT_CHILD_EVENT_MASK & MASK_ENTER_WINDOW, 0);
    assert_ne!(INPUT_CHILD_EVENT_MASK & MASK_POINTER_MOTION, 0);
}

#[test]
fn capture_is_wm_lifetime_not_per_client() {
    let mut reg = FrameRegistry::new();
    reg.set_capture(7);
    assert_eq!(reg.capture(), Some(7));
    reg.register(sample(1, 100));
    reg.remove_client(1);
    // Capture survives client removal.
    assert_eq!(reg.capture(), Some(7));
    assert!(reg.is_empty());
    reg.clear_capture();
    assert_eq!(reg.capture(), None);
}

// ---- further cases ----

#[test]
fn reregistering_displaces_old_children() {
    let mut reg = FrameRegistry::new();
    assert!(reg.register(sample(5, 100)).is_empty());
    let displaced = reg.register(sample(5, 300));
    assert_eq!(displaced, sample(5, 100).children().to_vec());
    assert_eq!(reg.xid_count(), 12);
    assert_eq!(reg.lookup_by_xid(108), None);
    assert_eq!(reg.lookup_by_xid(308).map(|t| t.client), Some(5));
    assert_eq!(reg.lookup_by_client(5), Some(sample(5, 300)));
}

#[test]
fn resources_region_of_children() {
    let res = sample(9, 40);
    assert_eq!(res.region_of(40), Some(FrameRegion::Resize(ResizeEdges::top_left())));
    assert_eq!(res.region_of(47), Some(FrameRegion::Resize(ResizeEdges::right())));
    assert_eq!(res.region_of(48), Some(FrameRegion::TitleDrag));
    assert_eq!(res.region_of(49), Some(FrameRegion::Control(FrameControl::Minimize)));
    assert_eq!(res.region_of(50), Some(FrameRegion::Control(FrameControl::MaximizeRestore)));
    assert_eq!(res.region_of(51), Some(FrameRegion::Control(FrameControl::Close)));
    assert_eq!(res.region_of(9), None);
    assert_eq!(res.region_of(52), None);
    assert_eq!(cursor_for_edges(ResizeEdges::none()), CursorKind::Default);
    assert_eq!(cursor_for_region(FrameRegion::Client), CursorKind::Default);
}

#[test]
fn default_registry_is_empty() {
    let reg = FrameRegistry::default();
    assert!(reg.is_empty());
    assert_eq!(reg.xid_count(), 0);
    assert_eq!(reg.capture(), None);
    assert_eq!(INPUT_CHILD_EVENT_MASK, 0x807c);
}
