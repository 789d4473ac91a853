//! Frame child layout: the frame outer partitioned into twelve children.
//!
//! Eight resize zones, one title-drag body and three control buttons.
//! Corners are `t x t` at the outer extremes; the top and bottom strips
//! exclude the corners (the top strip also excludes the controls band); the
//! left and right strips start at the titlebar and exclude the corners; the
//! title-drag body is the titlebar below the top strip, left of the
//! controls; controls follow `x = W - cw + i * bw`, clipped below the top
//! strip.

use vstd::prelude::*;
use crate::arith::{clamp_i32, clamp_int, max_i32, max_int};
use crate::frame::coords::FrameRect;
use crate::frame::model::{ResizeEdges, edges};

verus! {

/// Titlebar height.
pub const TITLEBAR_H: i32 = 31;
/// Three buttons of 38 pixels.
pub const CONTROLS_WIDTH: i32 = 114;
/// Single button width.
pub const BUTTON_WIDTH: i32 = 38;
/// Resize hit thickness.
pub const RESIZE_T: i32 = 6;

/// Twelve frame children: 8 resize + 1 title-drag + 3 controls.
#[derive(Debug, Clone, Copy, PartialEq, Eq, Hash)]
pub struct FrameChildLayout {
    pub top_left: FrameRect,
    pub top_right: FrameRect,
    pub bottom_left: FrameRect,
    pub bottom_right: FrameRect,
    pub top: FrameRect,
    pub bottom: FrameRect,
    pub left: FrameRect,
    pub right: FrameRect,
    pub title_drag: FrameRect,
    /// Left to right: minimize, maximize/restore, close.
    pub controls: [FrameRect; 3],
}

pub open spec fn fr(x: int, y: int, w: int, h: int) -> FrameRect {
    FrameRect { x: x as i32, y: y as i32, w: w as i32, h: h as i32 }
}

/// The resize edges in corner-first order.
pub open spec fn resize_pair_seq() -> Seq<ResizeEdges> {
    seq![
        edges(true, false, true, false),
        edges(false, true, true, false),
        edges(true, false, false, true),
        edges(false, true, false, true),
        edges(false, false, true, false),
        edges(false, false, false, true),
        edges(true, false, false, false),
        edges(false, true, false, false),
    ]
}

/// The resize rects in the same corner-first order.
pub open spec fn resize_rect_seq(l: FrameChildLayout) -> Seq<FrameRect> {
    seq![l.top_left, l.top_right, l.bottom_left, l.bottom_right, l.top, l.bottom, l.left, l.right]
}

/// All twelve children: resize rects, title drag, controls.
pub open spec fn all_children(l: FrameChildLayout) -> Seq<FrameRect> {
    resize_rect_seq(l).push(l.title_drag).push(l.controls[0]).push(l.controls[1]).push(
        l.controls[2],
    )
}

impl FrameChildLayout {
    /// Resize zones' edges, corner-first order.
    pub fn resize_pairs() -> (r: [ResizeEdges; 8])
        ensures
            r@ == resize_pair_seq(),
    {
        let r = [
            ResizeEdges::top_left(),
            ResizeEdges::top_right(),
            ResizeEdges::bottom_left(),
            ResizeEdges::bottom_right(),
            ResizeEdges::top(),
            ResizeEdges::bottom(),
            ResizeEdges::left(),
            ResizeEdges::right(),
        ];
        assert(r@ =~= resize_pair_seq());
        r
    }

    /// Resize rects in the order of [`Self::resize_pairs`].
    pub fn resize_rects(self) -> (r: [FrameRect; 8])
        ensures
            r@ == resize_rect_seq(self),
    {
        let r = [
            self.top_left,
            self.top_right,
            self.bottom_left,
            self.bottom_right,
            self.top,
            self.bottom,
            self.left,
            self.right,
        ];
        assert(r@ =~= resize_rect_seq(self));
        r
    }
}

/// Arguments for which the partition's arithmetic stays in `i32`.
pub open spec fn layout_args_ok(outer_h: i32, titlebar_h: i32, controls_width: i32, resize_t: i32, outer_w: i32) -> bool {
    let w = max_int(outer_w as int, 0);
    let h = max_int(outer_h as int, 0);
    let t = max_int(resize_t as int, 1);
    let tb = max_int(titlebar_h as int, t + 1);
    let cw = clamp_int(controls_width as int, 0, max_int(w - 2 * t, 0));
    let bw = if cw == controls_width { 38 } else { max_int(cw / 3, 1) };
    &&& 2 * t <= i32::MAX
    &&& h - tb - t >= i32::MIN
    &&& w - cw + 2 * bw <= i32::MAX
}

/// The partition (see the module documentation).
pub open spec fn layout_spec(outer_w: i32, outer_h: i32, titlebar_h: i32, controls_width: i32, resize_t: i32) -> FrameChildLayout {
    let w = max_int(outer_w as int, 0);
    let h = max_int(outer_h as int, 0);
    let t = max_int(resize_t as int, 1);
    let tb = max_int(titlebar_h as int, t + 1);
    let cw = clamp_int(controls_width as int, 0, max_int(w - 2 * t, 0));
    let bw = if cw == controls_width { 38 } else { max_int(cw / 3, 1) };
    FrameChildLayout {
        top_left: fr(0, 0, t, t),
        top_right: fr(w - t, 0, t, t),
        bottom_left: fr(0, h - t, t, t),
        bottom_right: fr(w - t, h - t, t, t),
        top: fr(t, 0, max_int(w - 2 * t - cw, 0), t),
        bottom: fr(t, h - t, max_int(w - 2 * t, 0), t),
        left: fr(0, tb, t, max_int(h - tb - t, 0)),
        right: fr(w - t, tb, t, max_int(h - tb - t, 0)),
        title_drag: fr(t, t, max_int(w - 2 * t - cw, 0), max_int(tb - t, 0)),
        controls: [
            fr(w - cw, t, bw, max_int(tb - t, 0)),
            fr(w - cw + bw, t, bw, max_int(tb - t, 0)),
            fr(w - cw + 2 * bw, t, bw, max_int(tb - t, 0)),
        ],
    }
}

/// Partition the frame outer (frame-local origin) into twelve children.
pub fn layout_frame_children(
    outer_w: i32,
    outer_h: i32,
    titlebar_h: i32,
    controls_width: i32,
    resize_t: i32,
) -> (r: FrameChildLayout)
    requires
        layout_args_ok(outer_h, titlebar_h, controls_width, resize_t, outer_w),
    ensures
        r == layout_spec(outer_w, outer_h, titlebar_h, controls_width, resize_t),
{
    let w = max_i32(outer_w, 0);
    let h = max_i32(outer_h, 0);
    let t = max_i32(resize_t, 1);
    let tb = max_i32(titlebar_h, t + 1);
    let cw = clamp_i32(controls_width, 0, max_i32(w - 2 * t, 0));
    let bw = if cw == controls_width { BUTTON_WIDTH } else { max_i32(cw / 3, 1) };
    let ch = max_i32(tb - t, 0);
    FrameChildLayout {
        top_left: FrameRect::new(0, 0, t, t),
        top_right: FrameRect::new(w - t, 0, t, t),
        bottom_left: FrameRect::new(0, h - t, t, t),
        bottom_right: FrameRect::new(w - t, h - t, t, t),
        top: FrameRect::new(t, 0, max_i32(w - 2 * t - cw, 0), t),
        bottom: FrameRect::new(t, h - t, max_i32(w - 2 * t, 0), t),
        left: FrameRect::new(0, tb, t, max_i32(h - tb - t, 0)),
        right: FrameRect::new(w - t, tb, t, max_i32(h - tb - t, 0)),
        title_drag: FrameRect::new(t, t, max_i32(w - 2 * t - cw, 0), ch),
        controls: [
            FrameRect::new(w - cw, t, bw, ch),
            FrameRect::new(w - cw + bw, t, bw, ch),
            FrameRect::new(w - cw + 2 * bw, t, bw, ch),
        ],
    }
}

/// Layout with the default titlebar, controls and resize thickness.
pub fn layout_frame_children_default(outer_w: i32, outer_h: i32) -> (r: FrameChildLayout)
    ensures
        r == layout_spec(outer_w, outer_h, TITLEBAR_H, CONTROLS_WIDTH, RESIZE_T),
{
    layout_frame_children(outer_w, outer_h, TITLEBAR_H, CONTROLS_WIDTH, RESIZE_T)
}

/// Two half-open rectangles share a pixel.
pub open spec fn rects_overlap(a: FrameRect, b: FrameRect) -> bool {
    a.x < b.x + b.w && b.x < a.x + a.w && a.y < b.y + b.h && b.y < a.y + a.h
}

/// Law: with the default metrics and a frame of at least `127 x 38`, the
/// twelve children all have positive area and no two of them overlap.
pub proof fn lemma_default_layout_partition(outer_w: i32, outer_h: i32)
    requires
        outer_w >= 127,
        outer_h >= 38,
    ensures
        ({
            let all = all_children(layout_spec(outer_w, outer_h, TITLEBAR_H, CONTROLS_WIDTH, RESIZE_T));
            &&& all.len() == 12
            &&& forall|i: int| 0 <= i < 12 ==> #[trigger] all[i].w > 0 && all[i].h > 0
            &&& forall|i: int, j: int|
                0 <= i < j < 12 ==> !rects_overlap(#[trigger] all[i], #[trigger] all[j])
        }),
{
    let l = layout_spec(outer_w, outer_h, TITLEBAR_H, CONTROLS_WIDTH, RESIZE_T);
    let all = all_children(l);
    assert(all.len() == 12);
    assert(all[0] == l.top_left);
    assert(all[1] == l.top_right);
    assert(all[2] == l.bottom_left);
    assert(all[3] == l.bottom_right);
    assert(all[4] == l.top);
    assert(all[5] == l.bottom);
    assert(all[6] == l.left);
    assert(all[7] == l.right);
    assert(all[8] == l.title_drag);
    assert(all[9] == l.controls[0]);
    assert(all[10] == l.controls[1]);
    assert(all[11] == l.controls[2]);
    let w = outer_w as int;
    let h = outer_h as int;
    assert(l.top_left == fr(0, 0, 6, 6));
    assert(l.top_right == fr(w - 6, 0, 6, 6));
    assert(l.bottom_left == fr(0, h - 6, 6, 6));
    assert(l.bottom_right == fr(w - 6, h - 6, 6, 6));
    assert(l.top == fr(6, 0, w - 126, 6));
    assert(l.bottom == fr(6, h - 6, w - 12, 6));
    assert(l.left == fr(0, 31, 6, h - 37));
    assert(l.right == fr(w - 6, 31, 6, h - 37));
    assert(l.title_drag == fr(6, 6, w - 126, 25));
    assert(l.controls[0] == fr(w - 114, 6, 38, 25));
    assert(l.controls[1] == fr(w - 76, 6, 38, 25));
    assert(l.controls[2] == fr(w - 38, 6, 38, 25));
    assert forall|i: int| 0 <= i < 12 implies #[trigger] all[i].w > 0 && all[i].h > 0 by {
    }
    assert forall|i: int, j: int| 0 <= i < j < 12 implies !rects_overlap(
        #[trigger] all[i],
        #[trigger] all[j],
    ) by {
    }
}

} // verus!
