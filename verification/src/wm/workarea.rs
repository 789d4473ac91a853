//! The work area: the screen minus the space docks reserve with
//! `_NET_WM_STRUT_PARTIAL` (or the legacy `_NET_WM_STRUT`).
//!
//! A strut is twelve cardinals: left, right, top, bottom thickness, then
//! the start/end pairs of the left, right, top and bottom ranges.

use vstd::prelude::*;
use crate::arith::{min_int, sat_add, sat_i32, wrap_i32, wrap_u32_to_i32};
use crate::frame::coords::RootRect;
use crate::geometry::{Rect, lemma_clamp_inside_contained, rect_clamp_inside};
use crate::frame::model::PlacementMode;

verus! {

/// Word `i` of a property value, zero past its end.
pub open spec fn word(values: Seq<u32>, i: int) -> u32 {
    if 0 <= i < values.len() {
        values[i]
    } else {
        0
    }
}

/// A dock's reservation on side `k` (0 left, 1 right, 2 top, 3 bottom)
/// counts when it is positive and its range is ordered and starts on the
/// screen (`bound`: the screen height for the left/right sides, the width
/// for top/bottom).
pub open spec fn side_applies(d: Seq<u32>, k: int, bound: u32) -> bool {
    d[k] > 0 && d[5 + 2 * k] >= d[4 + 2 * k] && d[4 + 2 * k] < bound
}

/// The largest counting reservation on side `k` over all docks.
pub open spec fn side_max(docks: Seq<[u32; 12]>, k: int, bound: u32) -> u32
    decreases docks.len(),
{
    if docks.len() == 0 {
        0
    } else {
        let m = side_max(docks.drop_last(), k, bound);
        let d = docks.last()@;
        if side_applies(d, k, bound) && d[k] > m {
            d[k]
        } else {
            m
        }
    }
}

/// The four reserved thicknesses; with no dock reservation at all the
/// configured panel reserve is kept at the bottom.
pub open spec fn struts_of(docks: Seq<[u32; 12]>, screen: Rect, panel_reserve: u16) -> (u32, u32, u32, u32) {
    let l = side_max(docks, 0, screen.height);
    let r = side_max(docks, 1, screen.height);
    let t = side_max(docks, 2, screen.width);
    let b = side_max(docks, 3, screen.width);
    if l == 0 && r == 0 && t == 0 && b == 0 {
        (0, 0, 0, panel_reserve as u32)
    } else {
        (l, r, t, b)
    }
}

/// `a - b` floored at zero.
pub open spec fn sub0(a: int, b: int) -> int {
    if a >= b { a - b } else { 0 }
}

/// The work area: left and top reservations leave at least one pixel,
/// right and bottom leave at least one pixel after them, and the size is
/// at least one pixel each way.
pub open spec fn work_area_spec(docks: Seq<[u32; 12]>, screen: Rect, panel_reserve: u16) -> Rect {
    let s = struts_of(docks, screen, panel_reserve);
    let left = min_int(s.0 as int, sub0(screen.width as int, 1));
    let right = min_int(s.1 as int, sub0(screen.width as int, left + 1));
    let top = min_int(s.2 as int, sub0(screen.height as int, 1));
    let bottom = min_int(s.3 as int, sub0(screen.height as int, top + 1));
    let w = sub0(screen.width as int, left + right);
    let h = sub0(screen.height as int, top + bottom);
    Rect {
        x: sat_i32(screen.x + min_int(left, i32::MAX as int)),
        y: sat_i32(screen.y + min_int(top, i32::MAX as int)),
        width: (if w >= 1 { w } else { 1 }) as u32,
        height: (if h >= 1 { h } else { 1 }) as u32,
    }
}

fn max_side(docks: &[[u32; 12]], k: usize, bound: u32) -> (r: u32)
    requires
        k < 4,
    ensures
        r == side_max(docks@, k as int, bound),
{
    let mut m: u32 = 0;
    let mut i: usize = 0;
    while i < docks.len()
        invariant
            k < 4,
            i <= docks@.len(),
            m == side_max(docks@.subrange(0, i as int), k as int, bound),
        decreases docks@.len() - i,
    {
        let d = docks[i];
        proof {
            assert(docks@.subrange(0, i as int + 1).drop_last() =~= docks@.subrange(0, i as int));
            assert(docks@.subrange(0, i as int + 1).last() == d);
        }
        if d[k] > 0 && d[5 + 2 * k] >= d[4 + 2 * k] && d[4 + 2 * k] < bound && d[k] > m {
            m = d[k];
        }
        i += 1;
    }
    assert(docks@.subrange(0, docks@.len() as int) =~= docks@);
    m
}

/// The work area for the docks' reservations on `screen`.
pub fn work_area(docks: &[[u32; 12]], screen: Rect, panel_reserve: u16) -> (r: Rect)
    ensures
        r == work_area_spec(docks@, screen, panel_reserve),
{
    let l = max_side(docks, 0, screen.height);
    let r = max_side(docks, 1, screen.height);
    let t = max_side(docks, 2, screen.width);
    let b = max_side(docks, 3, screen.width);
    let (s0, s1, s2, s3) = if l == 0 && r == 0 && t == 0 && b == 0 {
        (0u32, 0u32, 0u32, panel_reserve as u32)
    } else {
        (l, r, t, b)
    };
    let left = if s0 < screen.width.saturating_sub(1) { s0 } else { screen.width.saturating_sub(1) };
    let right = if s1 < screen.width.saturating_sub(left + 1) {
        s1
    } else {
        screen.width.saturating_sub(left + 1)
    };
    let top = if s2 < screen.height.saturating_sub(1) { s2 } else { screen.height.saturating_sub(1) };
    let bottom = if s3 < screen.height.saturating_sub(top + 1) {
        s3
    } else {
        screen.height.saturating_sub(top + 1)
    };
    let w = screen.width.saturating_sub(left + right);
    let h = screen.height.saturating_sub(top + bottom);
    let left_i: i32 = if left > 0x7fff_ffff { 0x7fff_ffff } else { left as i32 };
    let top_i: i32 = if top > 0x7fff_ffff { 0x7fff_ffff } else { top as i32 };
    Rect::new(
        sat_add(screen.x, left_i),
        sat_add(screen.y, top_i),
        if w >= 1 { w } else { 1 },
        if h >= 1 { h } else { 1 },
    )
}

/// Law: the work area lies inside the screen and keeps at least one pixel
/// each way (for a screen that does not reach the end of the `i32` range).
pub proof fn lemma_work_area_inside_screen(docks: Seq<[u32; 12]>, screen: Rect, panel_reserve: u16)
    requires
        screen.width >= 1,
        screen.height >= 1,
        screen.x + screen.width <= i32::MAX,
        screen.y + screen.height <= i32::MAX,
    ensures
        ({
            let w = work_area_spec(docks, screen, panel_reserve);
            &&& screen.x <= w.x
            &&& w.x + w.width <= screen.x + screen.width
            &&& screen.y <= w.y
            &&& w.y + w.height <= screen.y + screen.height
            &&& w.width >= 1
            &&& w.height >= 1
        }),
{
}

proof fn lemma_side_max_is_largest(docks: Seq<[u32; 12]>, k: int, bound: u32)
    requires
        0 <= k < 4,
    ensures
        forall|i: int| 0 <= i < docks.len() && side_applies(#[trigger] docks[i]@, k, bound) ==> docks[i]@[k]
            <= side_max(docks, k, bound),
        side_max(docks, k, bound) == 0 || exists|i: int|
            0 <= i < docks.len() && side_applies(#[trigger] docks[i]@, k, bound) && docks[i]@[k] == side_max(
                docks,
                k,
                bound,
            ),
    decreases docks.len(),
{
    if docks.len() > 0 {
        let pre = docks.drop_last();
        lemma_side_max_is_largest(pre, k, bound);
        assert forall|i: int| 0 <= i < pre.len() implies #[trigger] pre[i] == docks[i] by {}
        let m = side_max(pre, k, bound);
        if side_max(docks, k, bound) != 0 && side_max(docks, k, bound) == m {
            let j = choose|i: int| 0 <= i < pre.len() && side_applies(#[trigger] pre[i]@, k, bound) && pre[i]@[k] == m;
            assert(docks[j] == pre[j]);
        }
        let n = docks.len() - 1;
        assert(docks[n] == docks.last());
        assert forall|i: int| 0 <= i < docks.len() && side_applies(#[trigger] docks[i]@, k, bound) implies docks[i]@[k]
            <= side_max(docks, k, bound) by {
            if i < n {
                assert(pre[i] == docks[i]);
            }
        }
        if side_max(docks, k, bound) != m {
            assert(side_applies(docks[n]@, k, bound) && docks[n]@[k] == side_max(docks, k, bound));
        }
    }
}

/// Dock `i` reserves side `k` (0 left, 1 right, 2 top, 3 bottom) of
/// `screen`.
pub open spec fn dock_reserves(docks: Seq<[u32; 12]>, i: int, k: int, screen: Rect) -> bool {
    0 <= i < docks.len() && side_applies(docks[i]@, k, if k < 2 { screen.height } else { screen.width })
}

/// How far the work area's side `k` lies inside the screen's.
pub open spec fn inset(w: Rect, screen: Rect, k: int) -> int {
    if k == 0 {
        w.x - screen.x
    } else if k == 1 {
        (screen.x + screen.width) - (w.x + w.width)
    } else if k == 2 {
        w.y - screen.y
    } else {
        (screen.y + screen.height) - (w.y + w.height)
    }
}

/// Law: when docks reserve space and their reservations fit on the screen
/// (any left plus any right reservation narrower than the screen, any top
/// plus any bottom lower; a screen under 2^31 pixels each way that ends
/// inside the `i32` range), each side of the work area moves in by exactly
/// the largest reservation on that side: at least every dock's, and either
/// nothing or some dock's.
pub proof fn lemma_work_area_reserves_largest_strut(docks: Seq<[u32; 12]>, screen: Rect, panel_reserve: u16)
    requires
        screen.width <= i32::MAX,
        screen.height <= i32::MAX,
        screen.x + screen.width <= i32::MAX,
        screen.y + screen.height <= i32::MAX,
        forall|i: int, j: int|
            0 <= i < docks.len() && 0 <= j < docks.len() ==> #[trigger] docks[i][0] + #[trigger] docks[j][1]
                < screen.width && docks[i][2] + docks[j][3] < screen.height,
        exists|i: int, k: int| 0 <= k < 4 && #[trigger] dock_reserves(docks, i, k, screen),
    ensures
        forall|k: int, i: int|
            0 <= k < 4 && #[trigger] dock_reserves(docks, i, k, screen) ==> docks[i][k] <= inset(
                work_area_spec(docks, screen, panel_reserve),
                screen,
                k,
            ),
        forall|k: int|
            0 <= k < 4 ==> #[trigger] inset(work_area_spec(docks, screen, panel_reserve), screen, k) == 0
                || exists|i: int|
                dock_reserves(docks, i, k, screen) && docks[i][k] == inset(
                    work_area_spec(docks, screen, panel_reserve),
                    screen,
                    k,
                ),
{
    let (h, wd) = (screen.height, screen.width);
    lemma_side_max_is_largest(docks, 0, h);
    lemma_side_max_is_largest(docks, 1, h);
    lemma_side_max_is_largest(docks, 2, wd);
    lemma_side_max_is_largest(docks, 3, wd);
    let (i0, k0) = choose|i: int, k: int| 0 <= k < 4 && #[trigger] dock_reserves(docks, i, k, screen);
    assert(docks[i0][0] + docks[i0][1] < wd && docks[i0][2] + docks[i0][3] < h);
    let l = side_max(docks, 0, h);
    let r = side_max(docks, 1, h);
    let t = side_max(docks, 2, wd);
    let b = side_max(docks, 3, wd);
    assert(docks[i0]@[k0] <= side_max(docks, k0, if k0 < 2 { h } else { wd }));
    assert(!(l == 0 && r == 0 && t == 0 && b == 0));
    assert(l + r < wd) by {
        if l != 0 && r != 0 {
            let a = choose|i: int| 0 <= i < docks.len() && side_applies(#[trigger] docks[i]@, 0, h) && docks[i]@[0] == l;
            let c = choose|i: int| 0 <= i < docks.len() && side_applies(#[trigger] docks[i]@, 1, h) && docks[i]@[1] == r;
            assert(docks[a][0] + docks[c][1] < wd);
        } else if l != 0 {
            let a = choose|i: int| 0 <= i < docks.len() && side_applies(#[trigger] docks[i]@, 0, h) && docks[i]@[0] == l;
            assert(docks[a][0] + docks[a][1] < wd);
        } else if r != 0 {
            let c = choose|i: int| 0 <= i < docks.len() && side_applies(#[trigger] docks[i]@, 1, h) && docks[i]@[1] == r;
            assert(docks[c][0] + docks[c][1] < wd);
        }
    }
    assert(t + b < h) by {
        if t != 0 && b != 0 {
            let a = choose|i: int| 0 <= i < docks.len() && side_applies(#[trigger] docks[i]@, 2, wd) && docks[i]@[2] == t;
            let c = choose|i: int| 0 <= i < docks.len() && side_applies(#[trigger] docks[i]@, 3, wd) && docks[i]@[3] == b;
            assert(docks[a][2] + docks[c][3] < h);
        } else if t != 0 {
            let a = choose|i: int| 0 <= i < docks.len() && side_applies(#[trigger] docks[i]@, 2, wd) && docks[i]@[2] == t;
            assert(docks[a][2] + docks[a][3] < h);
        } else if b != 0 {
            let c = choose|i: int| 0 <= i < docks.len() && side_applies(#[trigger] docks[i]@, 3, wd) && docks[i]@[3] == b;
            assert(docks[c][2] + docks[c][3] < h);
        }
    }
    let w = work_area_spec(docks, screen, panel_reserve);
    assert(inset(w, screen, 0) == l);
    assert(inset(w, screen, 1) == r);
    assert(inset(w, screen, 2) == t);
    assert(inset(w, screen, 3) == b);
    assert forall|k: int| 0 <= k < 4 implies #[trigger] inset(w, screen, k) == 0 || exists|i: int|
        dock_reserves(docks, i, k, screen) && docks[i][k] == inset(w, screen, k) by {
        let bound = if k < 2 { h } else { wd };
        assert(inset(w, screen, k) == side_max(docks, k, bound));
        if inset(w, screen, k) != 0 {
            let a = choose|i: int|
                0 <= i < docks.len() && side_applies(#[trigger] docks[i]@, k, bound) && docks[i]@[k] == side_max(
                    docks,
                    k,
                    bound,
                );
            assert(dock_reserves(docks, a, k, screen) && docks[a][k] == inset(w, screen, k));
        }
    }
}

/// Law: with no dock reservation at all, the work area is the screen less
/// the configured panel reserve at the bottom (leaving at least one row).
pub proof fn lemma_work_area_panel_reserve(docks: Seq<[u32; 12]>, screen: Rect, panel_reserve: u16)
    requires
        screen.width >= 1,
        screen.height >= 1,
        screen.x + screen.width <= i32::MAX,
        screen.y + screen.height <= i32::MAX,
        forall|i: int, k: int| 0 <= k < 4 ==> !#[trigger] dock_reserves(docks, i, k, screen),
    ensures
        work_area_spec(docks, screen, panel_reserve) == (Rect {
            x: screen.x,
            y: screen.y,
            width: screen.width,
            height: (screen.height - min_int(panel_reserve as int, screen.height - 1)) as u32,
        }),
{
    let (h, wd) = (screen.height, screen.width);
    lemma_side_max_is_largest(docks, 0, h);
    lemma_side_max_is_largest(docks, 1, h);
    lemma_side_max_is_largest(docks, 2, wd);
    lemma_side_max_is_largest(docks, 3, wd);
    assert(side_max(docks, 0, h) == 0) by {
        if side_max(docks, 0, h) != 0 {
            let a = choose|i: int| 0 <= i < docks.len() && side_applies(#[trigger] docks[i]@, 0, h) && docks[i]@[0] == side_max(docks, 0, h);
            assert(dock_reserves(docks, a, 0, screen));
        }
    }
    assert(side_max(docks, 1, h) == 0) by {
        if side_max(docks, 1, h) != 0 {
            let a = choose|i: int| 0 <= i < docks.len() && side_applies(#[trigger] docks[i]@, 1, h) && docks[i]@[1] == side_max(docks, 1, h);
            assert(dock_reserves(docks, a, 1, screen));
        }
    }
    assert(side_max(docks, 2, wd) == 0) by {
        if side_max(docks, 2, wd) != 0 {
            let a = choose|i: int| 0 <= i < docks.len() && side_applies(#[trigger] docks[i]@, 2, wd) && docks[i]@[2] == side_max(docks, 2, wd);
            assert(dock_reserves(docks, a, 2, screen));
        }
    }
    assert(side_max(docks, 3, wd) == 0) by {
        if side_max(docks, 3, wd) != 0 {
            let a = choose|i: int| 0 <= i < docks.len() && side_applies(#[trigger] docks[i]@, 3, wd) && docks[i]@[3] == side_max(docks, 3, wd);
            assert(dock_reserves(docks, a, 3, screen));
        }
    }
}

/// The work area as a placement rect (sizes at least 1, wrapped into
/// `i32`).
pub fn work_root(work: Rect) -> (r: RootRect)
    ensures
        r == (RootRect {
            x: work.x,
            y: work.y,
            w: wrap_i32(if work.width >= 1 { work.width } else { 1u32 }),
            h: wrap_i32(if work.height >= 1 { work.height } else { 1u32 }),
        }),
{
    let w = if work.width >= 1 { work.width } else { 1 };
    let h = if work.height >= 1 { work.height } else { 1 };
    RootRect::new(work.x, work.y, wrap_u32_to_i32(w), wrap_u32_to_i32(h))
}

/// The first twelve words of a `_NET_WM_STRUT_PARTIAL` value, zero-padded.
pub open spec fn partial_words(values: Seq<u32>) -> Seq<u32> {
    Seq::new(12, |i: int| word(values, i))
}

/// A `_NET_WM_STRUT_PARTIAL` value as a strut: `None` when all twelve
/// words are zero (the legacy property is consulted then).
pub fn partial_strut(values: &[u32]) -> (r: Option<[u32; 12]>)
    ensures
        r is Some <==> partial_words(values@) != Seq::new(12, |i: int| 0u32),
        r matches Some(s) ==> s@ == partial_words(values@),
{
    let mut result = [0u32; 12];
    let mut i: usize = 0;
    while i < 12
        invariant
            i <= 12,
            forall|j: int| 0 <= j < i ==> result@[j] == word(values@, j),
            forall|j: int| i <= j < 12 ==> result@[j] == 0,
        decreases 12 - i,
    {
        if i < values.len() {
            result[i] = values[i];
        }
        i += 1;
    }
    assert(result@ =~= partial_words(values@));
    let mut any = false;
    let mut j: usize = 0;
    while j < 12
        invariant
            j <= 12,
            result@ == partial_words(values@),
            any <==> exists|q: int| 0 <= q < j && result@[q] != 0,
        decreases 12 - j,
    {
        if result[j] != 0 {
            any = true;
        }
        j += 1;
    }
    proof {
        if any {
            let q = choose|q: int| 0 <= q < 12 && result@[q] != 0;
            assert(Seq::new(12, |i: int| 0u32)[q] == 0);
        } else {
            assert(result@ =~= Seq::new(12, |i: int| 0u32));
        }
    }
    if any {
        Some(result)
    } else {
        None
    }
}

/// A legacy `_NET_WM_STRUT` value (four thicknesses) as a strut whose
/// ranges span the whole screen.
pub open spec fn legacy_words(values: Seq<u32>, screen_w: u32, screen_h: u32) -> Seq<u32> {
    seq![
        word(values, 0), word(values, 1), word(values, 2), word(values, 3),
        0, sub0(screen_h as int, 1) as u32, 0, sub0(screen_h as int, 1) as u32,
        0, sub0(screen_w as int, 1) as u32, 0, sub0(screen_w as int, 1) as u32,
    ]
}

pub fn legacy_strut(values: &[u32], screen_w: u32, screen_h: u32) -> (r: [u32; 12])
    ensures
        r@ == legacy_words(values@, screen_w, screen_h),
{
    let mut result = [0u32; 12];
    let mut i: usize = 0;
    while i < 4
        invariant
            i <= 4,
            forall|j: int| 0 <= j < i ==> result@[j] == word(values@, j),
            forall|j: int| i <= j < 12 ==> result@[j] == 0,
        decreases 4 - i,
    {
        if i < values.len() {
            result[i] = values[i];
        }
        i += 1;
    }
    result[4] = 0;
    result[5] = screen_h.saturating_sub(1);
    result[6] = 0;
    result[7] = screen_h.saturating_sub(1);
    result[8] = 0;
    result[9] = screen_w.saturating_sub(1);
    result[10] = 0;
    result[11] = screen_w.saturating_sub(1);
    assert(result@ =~= legacy_words(values@, screen_w, screen_h));
    result
}

/// The outer rect a client gets when the work area changes: minimized and
/// fullscreen windows stay; a maximized window takes the whole work area;
/// others are clamped inside it. `None` when nothing changes.
pub open spec fn reconcile_spec(mode: PlacementMode, outer: Rect, minimized: bool, work: Rect) -> Option<Rect> {
    if minimized || mode == PlacementMode::Fullscreen {
        None
    } else if mode == PlacementMode::Maximized {
        if work != outer { Some(work) } else { None }
    } else {
        let c = rect_clamp_inside(outer, work);
        if c != outer { Some(c) } else { None }
    }
}

pub fn reconcile_outer(mode: PlacementMode, outer: Rect, minimized: bool, work: Rect) -> (r: Option<Rect>)
    ensures
        r == reconcile_spec(mode, outer, minimized, work),
{
    if minimized {
        return None;
    }
    match mode {
        PlacementMode::Fullscreen => None,
        PlacementMode::Maximized => if work != outer { Some(work) } else { None },
        PlacementMode::Floating | PlacementMode::Snapped(_) => {
            let c = outer.clamp_inside(work);
            if c != outer { Some(c) } else { None }
        },
    }
}

/// Law: after a work-area change, every reconciled floating or snapped
/// window lies inside the new work area.
pub proof fn lemma_reconciled_inside(mode: PlacementMode, outer: Rect, work: Rect)
    requires
        mode == PlacementMode::Floating || mode is Snapped,
        work.width >= 1,
        work.height >= 1,
        work.x + work.width <= i32::MAX,
        work.y + work.height <= i32::MAX,
    ensures
        ({
            let r = match reconcile_spec(mode, outer, false, work) {
                Some(n) => n,
                None => outer,
            };
            &&& work.x <= r.x
            &&& r.x + r.width <= work.x + work.width
            &&& work.y <= r.y
            &&& r.y + r.height <= work.y + work.height
        }),
{
    lemma_clamp_inside_contained(outer, work);
}

} // verus!
