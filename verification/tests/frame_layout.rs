use flamewm_wm_x11::frame::coords::{FrameRect, RootPoint, RootRect};
use flamewm_wm_x11::frame::layout::{
    layout_frame_children, layout_frame_children_default, FrameChildLayout, CONTROLS_WIDTH,
    RESIZE_T, TITLEBAR_H,
};
use flamewm_wm_x11::frame::model::ResizeEdges;

const W: i32 = 400;
const H: i32 = 300;

fn layout() -> FrameChildLayout {
    layout_frame_children(W, H, TITLEBAR_H, CONTROLS_WIDTH, RESIZE_T)
}

fn overlaps(a: FrameRect, b: FrameRect) -> bool {
    a.x < b.x + b.w && b.x < a.x + a.w && a.y < b.y + b.h && b.y < a.y + a.h
}

#[test]
fn j06_zone_pins_400x300() {
    let l = layout();
    assert_eq!(l.top_left, FrameRect::new(0, 0, 6, 6));
    assert_eq!(l.top_right, FrameRect::new(394, 0, 6, 6));
    assert_eq!(l.bottom_left, FrameRect::new(0, 294, 6, 6));
    assert_eq!(l.bottom_right, FrameRect::new(394, 294, 6, 6));
    assert_eq!(l.top, FrameRect::new(6, 0, 274, 6));
    assert_eq!(l.bottom, FrameRect::new(6, 294, 388, 6));
    assert_eq!(l.left, FrameRect::new(0, 31, 6, 263));
    assert_eq!(l.right, FrameRect::new(394, 31, 6, 263));
    assert_eq!(l.title_drag, FrameRect::new(6, 6, 274, 25));
    assert_eq!(
        l.controls,
        [
            FrameRect::new(286, 6, 38, 25),
            FrameRect::new(324, 6, 38, 25),
            FrameRect::new(362, 6, 38, 25),
        ]
    );
}

#[test]
fn eight_resize_zones_unique() {
    let l = layout();
    let rects = l.resize_rects();
    let mut seen = std::collections::HashSet::new();
    for rect in rects {
        assert!(rect.w > 0 && rect.h > 0, "{rect:?}");
        assert!(
            seen.insert((rect.x, rect.y, rect.w, rect.h)),
            "{rect:?} dup"
        );
    }
    assert_eq!(seen.len(), 8);
    // Edges pair one-to-one in corner-first order.
    let edges = FrameChildLayout::resize_pairs();
    assert_eq!(
        edges,
        [
            ResizeEdges::top_left(),
            ResizeEdges::top_right(),
            ResizeEdges::bottom_left(),
            ResizeEdges::bottom_right(),
            ResizeEdges::top(),
            ResizeEdges::bottom(),
            ResizeEdges::left(),
            ResizeEdges::right(),
        ]
    );
}

#[test]
fn twelve_children_nonoverlapping() {
    let l = layout();
    let mut all = l.resize_rects().to_vec();
    all.push(l.title_drag);
    all.extend(l.controls);
    assert_eq!(all.len(), 12);
    for i in 0..all.len() {
        assert!(all[i].w > 0 && all[i].h > 0, "{:?}", all[i]);
        for j in (i + 1)..all.len() {
            assert!(!overlaps(all[i], all[j]), "{:?} vs {:?}", all[i], all[j]);
        }
    }
}

#[test]
fn title_body_excludes_controls_and_top_resize() {
    let l = layout();
    // Below the top-6px strip, above the titlebar bottom.
    assert!(l.title_drag.y >= RESIZE_T);
    assert_eq!(l.title_drag.y + l.title_drag.h, TITLEBAR_H);
    // Excludes control rects (ends at or before the controls band).
    assert!(l.title_drag.x + l.title_drag.w <= W - CONTROLS_WIDTH);
    assert!(l.title_drag.x + l.title_drag.w <= l.controls[0].x);
    for control in l.controls {
        assert!(!overlaps(l.title_drag, control));
        // Clipped below the top strip.
        assert!(control.y >= RESIZE_T);
        assert!(!overlaps(l.top, control));
    }
    assert!(!overlaps(l.title_drag, l.top));
}

#[test]
fn controls_tile_and_nonoverlap() {
    let l = layout();
    assert_eq!(l.controls[0].w, 38);
    assert_eq!(l.controls[2].x + l.controls[2].w, W);
    assert_eq!(l.controls[0].x + 38, l.controls[1].x);
    assert_eq!(l.controls[1].x + 38, l.controls[2].x);
    assert!(!overlaps(l.controls[0], l.controls[1]));
    assert!(!overlaps(l.controls[1], l.controls[2]));
}

#[test]
fn root_origin_does_not_change_local_layout() {
    // Layout is frame-local; crossing the (500,200) root origin and back
    // is the identity on every child rect.
    let origin = RootPoint::new(500, 200);
    let l = layout();
    let mut all = l.resize_rects().to_vec();
    all.push(l.title_drag);
    all.extend(l.controls);
    for rect in all {
        let root: RootRect = rect.to_root(origin);
        assert_eq!(root.x, rect.x + 500);
        assert_eq!(root.y, rect.y + 200);
        assert_eq!(root.to_frame(origin), rect);
    }
}

// ---- further cases ----

#[test]
fn default_layout_matches_explicit_constants() {
    assert_eq!(layout_frame_children_default(W, H), layout());
}

#[test]
fn minimum_frame_children_stay_positive_and_disjoint_law_example() {
    // The smallest frame for which the twelve children all have area.
    for (w, h) in [(127, 38), (128, 40), (1920, 1080)] {
        let l = layout_frame_children_default(w, h);
        let mut all = l.resize_rects().to_vec();
        all.push(l.title_drag);
        all.extend(l.controls);
        for i in 0..all.len() {
            assert!(all[i].w > 0 && all[i].h > 0, "{w}x{h} {:?}", all[i]);
            for j in (i + 1)..all.len() {
                assert!(!overlaps(all[i], all[j]), "{w}x{h}");
            }
        }
    }
}

#[test]
fn tiny_frame_never_yields_negative_sizes() {
    let l = layout_frame_children_default(10, 10);
    for rect in l.resize_rects() {
        assert!(rect.w >= 0 && rect.h >= 0, "{rect:?}");
    }
    assert_eq!(l.title_drag.w, 0);
    assert_eq!(l.top.w, 0);
    assert_eq!(l.bottom, FrameRect::new(6, 4, 0, 6));
}
