//! `WM_NORMAL_HINTS` parsing and the client resize-constraint policy.
//!
//! The property is read once when a window is managed; these functions only
//! transform the already-read cardinals and sizes, with exact integer
//! arithmetic.

use vstd::prelude::*;
use crate::arith::{max_int, max_u32, min_int, min_u32, mul_u64};

verus! {

/// ICCCM `WM_NORMAL_HINTS` flag bits (the subset used here).
pub const HINT_P_MIN_SIZE: u32 = 0x10;
pub const HINT_P_MAX_SIZE: u32 = 0x20;
pub const HINT_P_RESIZE_INC: u32 = 0x40;
pub const HINT_P_ASPECT: u32 = 0x80;
pub const HINT_P_BASE_SIZE: u32 = 0x100;
pub const HINT_P_WIN_GRAVITY: u32 = 0x200;

/// Parsed client size hints; all dimensions are client (inner) pixels.
#[derive(Debug, Clone, Copy, PartialEq, Eq)]
pub struct ClientSizeHints {
    pub min: Option<(u32, u32)>,
    pub max: Option<(u32, u32)>,
    pub base: Option<(u32, u32)>,
    pub inc: Option<(u32, u32)>,
    pub min_aspect: Option<(u32, u32)>,
    pub max_aspect: Option<(u32, u32)>,
    pub gravity: Option<u32>,
    /// False iff exactly one size is allowed (min == max).
    pub resizable: bool,
}

/// The hint-free value: nothing constrained, resizable.
pub open spec fn free_hints() -> ClientSizeHints {
    ClientSizeHints {
        min: None,
        max: None,
        base: None,
        inc: None,
        min_aspect: None,
        max_aspect: None,
        gravity: None,
        resizable: true,
    }
}

/// Hints that the resize policy can use without dividing by zero: every
/// increment step is positive (what [`ClientSizeHints::parse`] produces).
pub open spec fn hints_wf(h: ClientSizeHints) -> bool {
    h.inc matches Some((a, b)) ==> a > 0 && b > 0
}

impl Default for ClientSizeHints {
    fn default() -> (r: Self)
        ensures
            r == free_hints(),
    {
        ClientSizeHints {
            min: None,
            max: None,
            base: None,
            inc: None,
            min_aspect: None,
            max_aspect: None,
            gravity: None,
            resizable: true,
        }
    }
}

pub open spec fn flag_set(flags: u32, bit: u32) -> bool {
    flags & bit != 0
}

/// A size pair read at `i, i + 1`, absent when the flag is clear, the
/// property is too short, or the pair is `(0, 0)`.
pub open spec fn parsed_size(v: Seq<u32>, bit: u32, i: int) -> Option<(u32, u32)> {
    if flag_set(v[0], bit) && v.len() >= i + 2 && !(v[i] == 0 && v[i + 1] == 0) {
        Some((v[i], v[i + 1]))
    } else {
        None
    }
}

/// A ratio pair read at `i, i + 1`, absent unless both terms are positive.
pub open spec fn parsed_ratio(v: Seq<u32>, i: int) -> Option<(u32, u32)> {
    if flag_set(v[0], HINT_P_ASPECT) && v.len() >= 15 && v[i] > 0 && v[i + 1] > 0 {
        Some((v[i], v[i + 1]))
    } else {
        None
    }
}

/// `resizable` unless both bounds are present and equal.
pub open spec fn resizable_for(min: Option<(u32, u32)>, max: Option<(u32, u32)>) -> bool {
    match (min, max) {
        (Some(a), Some(b)) => a != b,
        _ => true,
    }
}

/// The XSizeHints layout: flags, four pad words, min (5, 6), max (7, 8),
/// increment (9, 10), aspect min (11, 12) and max (13, 14), base (15, 16),
/// gravity (17).
pub open spec fn parse_hints(v: Seq<u32>) -> ClientSizeHints {
    if v.len() == 0 {
        free_hints()
    } else {
        let min = parsed_size(v, HINT_P_MIN_SIZE, 5);
        let max = parsed_size(v, HINT_P_MAX_SIZE, 7);
        let inc = if flag_set(v[0], HINT_P_RESIZE_INC) && v.len() >= 11 && v[9] > 0 && v[10] > 0 {
            Some((v[9], v[10]))
        } else {
            None
        };
        let base = if flag_set(v[0], HINT_P_BASE_SIZE) && v.len() >= 17 {
            Some((v[15], v[16]))
        } else {
            None
        };
        let gravity = if flag_set(v[0], HINT_P_WIN_GRAVITY) && v.len() >= 18 {
            Some(v[17])
        } else {
            None
        };
        ClientSizeHints {
            min,
            max,
            base,
            inc,
            min_aspect: parsed_ratio(v, 11),
            max_aspect: parsed_ratio(v, 13),
            gravity,
            resizable: resizable_for(min, max),
        }
    }
}

impl ClientSizeHints {
    /// Parse raw `WM_NORMAL_HINTS` cardinals.
    pub fn parse(values: &[u32]) -> (r: Self)
        ensures
            r == parse_hints(values@),
            hints_wf(r),
    {
        let mut out = ClientSizeHints {
            min: None,
            max: None,
            base: None,
            inc: None,
            min_aspect: None,
            max_aspect: None,
            gravity: None,
            resizable: true,
        };
        if values.len() == 0 {
            return out;
        }
        let flags = values[0];
        if flags & HINT_P_MIN_SIZE != 0 && values.len() >= 7 {
            if !(values[5] == 0 && values[6] == 0) {
                out.min = Some((values[5], values[6]));
            }
        }
        if flags & HINT_P_MAX_SIZE != 0 && values.len() >= 9 {
            if !(values[7] == 0 && values[8] == 0) {
                out.max = Some((values[7], values[8]));
            }
        }
        if flags & HINT_P_RESIZE_INC != 0 && values.len() >= 11 {
            if values[9] > 0 && values[10] > 0 {
                out.inc = Some((values[9], values[10]));
            }
        }
        if flags & HINT_P_ASPECT != 0 && values.len() >= 15 {
            if values[11] > 0 && values[12] > 0 {
                out.min_aspect = Some((values[11], values[12]));
            }
            if values[13] > 0 && values[14] > 0 {
                out.max_aspect = Some((values[13], values[14]));
            }
        }
        if flags & HINT_P_BASE_SIZE != 0 && values.len() >= 17 {
            out.base = Some((values[15], values[16]));
        }
        if flags & HINT_P_WIN_GRAVITY != 0 && values.len() >= 18 {
            out.gravity = Some(values[17]);
        }
        out.resizable = match (out.min, out.max) {
            (Some(a), Some(b)) => !(a.0 == b.0 && a.1 == b.1),
            _ => true,
        };
        out
    }
}

/// X11 window gravity (`Forget` = 0, `NorthWest` = 1 .. `SouthEast` = 9,
/// `Static` = 10).
#[derive(Debug, Clone, Copy, PartialEq, Eq, Structural, Hash)]
pub enum WinGravity {
    Forget,
    NorthWest,
    North,
    NorthEast,
    West,
    Center,
    East,
    SouthWest,
    South,
    SouthEast,
    Static,
}

/// The gravity a raw cardinal names; unknown values mean `NorthWest`, the
/// ICCCM default reference point.
pub open spec fn gravity_from(v: u32) -> WinGravity {
    if v == 0 {
        WinGravity::Forget
    } else if v == 1 {
        WinGravity::NorthWest
    } else if v == 2 {
        WinGravity::North
    } else if v == 3 {
        WinGravity::NorthEast
    } else if v == 4 {
        WinGravity::West
    } else if v == 5 {
        WinGravity::Center
    } else if v == 6 {
        WinGravity::East
    } else if v == 7 {
        WinGravity::SouthWest
    } else if v == 8 {
        WinGravity::South
    } else if v == 9 {
        WinGravity::SouthEast
    } else if v == 10 {
        WinGravity::Static
    } else {
        WinGravity::NorthWest
    }
}

/// The gravity of parsed hints, `NorthWest` when absent.
pub open spec fn gravity_of(h: ClientSizeHints) -> WinGravity {
    match h.gravity {
        Some(v) => gravity_from(v),
        None => WinGravity::NorthWest,
    }
}

/// Anchor numerator over denominator 2 along `(x, y)`: `NorthWest` = (0, 0),
/// `Center` = (1, 1), `SouthEast` = (2, 2); `Static` and `Forget` behave as
/// `NorthWest` here.
pub open spec fn anchor_of(g: WinGravity) -> (i32, i32) {
    match g {
        WinGravity::Forget | WinGravity::NorthWest | WinGravity::Static => (0, 0),
        WinGravity::North => (1, 0),
        WinGravity::NorthEast => (2, 0),
        WinGravity::West => (0, 1),
        WinGravity::Center => (1, 1),
        WinGravity::East => (2, 1),
        WinGravity::SouthWest => (0, 2),
        WinGravity::South => (1, 2),
        WinGravity::SouthEast => (2, 2),
    }
}

impl WinGravity {
    /// Decode a raw gravity cardinal.
    pub fn from_u32(value: u32) -> (r: Self)
        ensures
            r == gravity_from(value),
    {
        match value {
            0 => WinGravity::Forget,
            1 => WinGravity::NorthWest,
            2 => WinGravity::North,
            3 => WinGravity::NorthEast,
            4 => WinGravity::West,
            5 => WinGravity::Center,
            6 => WinGravity::East,
            7 => WinGravity::SouthWest,
            8 => WinGravity::South,
            9 => WinGravity::SouthEast,
            10 => WinGravity::Static,
            _ => WinGravity::NorthWest,
        }
    }

    /// Decode the parsed `gravity` field, defaulting to `NorthWest`.
    pub fn of(hints: &ClientSizeHints) -> (r: Self)
        ensures
            r == gravity_of(*hints),
    {
        match hints.gravity {
            Some(v) => WinGravity::from_u32(v),
            None => WinGravity::NorthWest,
        }
    }

    /// Anchor numerator over denominator 2 along `(x, y)`.
    pub fn anchor_num(self) -> (r: (i32, i32))
        ensures
            r == anchor_of(self),
    {
        match self {
            WinGravity::Forget | WinGravity::NorthWest | WinGravity::Static => (0, 0),
            WinGravity::North => (1, 0),
            WinGravity::NorthEast => (2, 0),
            WinGravity::West => (0, 1),
            WinGravity::Center => (1, 1),
            WinGravity::East => (2, 1),
            WinGravity::SouthWest => (0, 2),
            WinGravity::South => (1, 2),
            WinGravity::SouthEast => (2, 2),
        }
    }
}

/// Dragged corner; the opposite corner stays fixed.
#[derive(Debug, Clone, Copy, PartialEq, Eq, Structural)]
pub enum ResizeCorner {
    TopLeft,
    TopRight,
    BottomLeft,
    BottomRight,
}

// ---- the resize policy, stage by stage ----

/// Raise to the minimum size (each bound raised to at least 1).
pub open spec fn floor_min(v: int, m: Option<(u32, u32)>, axis_x: bool) -> int {
    match m {
        Some(p) => max_int(v, max_int((if axis_x { p.0 } else { p.1 }) as int, 1)),
        None => v,
    }
}

/// Lower to the maximum size (each bound raised to at least 1).
pub open spec fn ceil_max(v: int, m: Option<(u32, u32)>, axis_x: bool) -> int {
    match m {
        Some(p) => min_int(v, max_int((if axis_x { p.0 } else { p.1 }) as int, 1)),
        None => v,
    }
}

/// Snap down to `base + k * inc` (to `base` when not above it).
pub open spec fn inc_snap(v: int, base: int, inc: int) -> int {
    if v > base {
        base + ((v - base) / inc) * inc
    } else {
        base
    }
}

/// The increment stage along one axis, including the floors around it.
pub open spec fn inc_stage(v: int, h: ClientSizeHints, axis_x: bool) -> int {
    match h.inc {
        Some(i) => {
            let base = match h.base {
                Some(b) => (if axis_x { b.0 } else { b.1 }) as int,
                None => 0,
            };
            let step = (if axis_x { i.0 } else { i.1 }) as int;
            floor_min(max_int(inc_snap(v, base, step), 1), h.min, axis_x)
        },
        None => v,
    }
}

/// Shrink the width so that `w / h <= num / den` (integer cross products).
pub open spec fn max_aspect_stage(w: int, h: int, a: Option<(u32, u32)>) -> int {
    match a {
        Some((num, den)) => if w * den > num * h {
            max_int((h * num) / (den as int), 1)
        } else {
            w
        },
        None => w,
    }
}

/// Shrink the height so that `w / h >= num / den` (integer cross products).
pub open spec fn min_aspect_stage(w: int, h: int, a: Option<(u32, u32)>) -> int {
    match a {
        Some((num, den)) => if w * den < num * h {
            max_int((w * den) / (num as int), 1)
        } else {
            h
        },
        None => h,
    }
}

/// The whole policy: floor at 1, min, max, increment snap (restoring the
/// min floor), aspect shrink (max ratio on the width, then min ratio on the
/// height), then min and max once more, and a final floor at 1.
pub open spec fn snap_size(w: int, h: int, hints: ClientSizeHints) -> (u32, u32) {
    let w1 = ceil_max(floor_min(max_int(w, 1), hints.min, true), hints.max, true);
    let h1 = ceil_max(floor_min(max_int(h, 1), hints.min, false), hints.max, false);
    let w2 = inc_stage(w1, hints, true);
    let h2 = inc_stage(h1, hints, false);
    let w3 = max_aspect_stage(w2, h2, hints.max_aspect);
    let h3 = min_aspect_stage(w3, h2, hints.min_aspect);
    let w4 = ceil_max(floor_min(w3, hints.min, true), hints.max, true);
    let h4 = ceil_max(floor_min(h3, hints.min, false), hints.max, false);
    (max_int(w4, 1) as u32, max_int(h4, 1) as u32)
}

fn snap_inc_axis(v: u32, base: u32, inc: u32) -> (r: u32)
    requires
        inc > 0,
    ensures
        r == inc_snap(v as int, base as int, inc as int),
{
    if v > base {
        let k = (v - base) / inc;
        proof {
            assert(k * inc <= v - base) by (nonlinear_arith)
                requires
                    k == (v - base) / (inc as int),
                    inc > 0,
                    v > base,
            ;
        }
        base + k * inc
    } else {
        base
    }
}

fn floor_min_exec(v: u32, m: Option<(u32, u32)>, axis_x: bool) -> (r: u32)
    ensures
        r == floor_min(v as int, m, axis_x),
{
    match m {
        Some(p) => max_u32(v, max_u32(if axis_x { p.0 } else { p.1 }, 1)),
        None => v,
    }
}

fn ceil_max_exec(v: u32, m: Option<(u32, u32)>, axis_x: bool) -> (r: u32)
    ensures
        r == ceil_max(v as int, m, axis_x),
{
    match m {
        Some(p) => min_u32(v, max_u32(if axis_x { p.0 } else { p.1 }, 1)),
        None => v,
    }
}

/// Snap a client size to base/min/max, increment steps and aspect bounds.
pub fn snap_client_size(w: u32, h: u32, hints: &ClientSizeHints) -> (r: (u32, u32))
    requires
        hints_wf(*hints),
    ensures
        r == snap_size(w as int, h as int, *hints),
        r.0 >= 1,
        r.1 >= 1,
{
    let mut w = ceil_max_exec(floor_min_exec(max_u32(w, 1), hints.min, true), hints.max, true);
    let mut h = ceil_max_exec(floor_min_exec(max_u32(h, 1), hints.min, false), hints.max, false);
    let base = match hints.base {
        Some(b) => b,
        None => (0, 0),
    };
    if let Some(inc) = hints.inc {
        w = floor_min_exec(max_u32(snap_inc_axis(w, base.0, inc.0), 1), hints.min, true);
        h = floor_min_exec(max_u32(snap_inc_axis(h, base.1, inc.1), 1), hints.min, false);
    }
    if let Some((num, den)) = hints.max_aspect {
        let lhs: u64 = mul_u64(w, den);
        let rhs: u64 = mul_u64(num, h);
        if lhs > rhs {
            proof {
                assert(den > 0) by (nonlinear_arith)
                    requires
                        w * den > num * h,
                        num >= 0,
                        h >= 0,
                ;
            }
            let q: u64 = mul_u64(h, num) / (den as u64);
            proof {
                assert(q < w) by (nonlinear_arith)
                    requires
                        q == (h * num) / (den as int),
                        w * den > num * h,
                        den > 0,
                ;
            }
            w = max_u32(q as u32, 1);
        }
    }
    if let Some((num, den)) = hints.min_aspect {
        let lhs: u64 = mul_u64(w, den);
        let rhs: u64 = mul_u64(num, h);
        if lhs < rhs {
            proof {
                assert(num > 0) by (nonlinear_arith)
                    requires
                        w * den < num * h,
                        w >= 0,
                        den >= 0,
                        h >= 0,
                ;
            }
            let q: u64 = mul_u64(w, den) / (num as u64);
            proof {
                assert(q < h) by (nonlinear_arith)
                    requires
                        q == (w * den) / (num as int),
                        w * den < num * h,
                        num > 0,
                ;
            }
            h = max_u32(q as u32, 1);
        }
    }
    w = ceil_max_exec(floor_min_exec(w, hints.min, true), hints.max, true);
    h = ceil_max_exec(floor_min_exec(h, hints.min, false), hints.max, false);
    (max_u32(w, 1), max_u32(h, 1))
}

/// The outer size for a corner drag: frame floor, client domain, the size
/// policy, back to outer, then the work-area cap and the frame floor.
pub open spec fn constrained_frame(
    raw_w: u32,
    raw_h: u32,
    hints: ClientSizeHints,
    frame_dw: u32,
    frame_dh: u32,
    min_frame: (u32, u32),
    work: (u32, u32),
) -> (u32, u32) {
    let w = max_int(max_int(raw_w as int, max_int(min_frame.0 as int, 1)), frame_dw + 1);
    let h = max_int(max_int(raw_h as int, max_int(min_frame.1 as int, 1)), frame_dh + 1);
    let c = snap_size(w - frame_dw, h - frame_dh, hints);
    let ow = max_int(min_int(c.0 + frame_dw, max_int(work.0 as int, 1)), max_int(min_frame.0 as int, 1));
    let oh = max_int(min_int(c.1 + frame_dh, max_int(work.1 as int, 1)), max_int(min_frame.1 as int, 1));
    (ow as u32, oh as u32)
}

/// Full constraint pipeline for a corner drag; the corner itself does not
/// change the size.
pub fn constrain_frame_size(
    raw_w: u32,
    raw_h: u32,
    corner: ResizeCorner,
    hints: &ClientSizeHints,
    frame_dw: u32,
    frame_dh: u32,
    min_frame: (u32, u32),
    work: (u32, u32),
) -> (r: (u32, u32))
    requires
        hints_wf(*hints),
        frame_dw < u32::MAX,
        frame_dh < u32::MAX,
        ({
            let w = max_int(max_int(raw_w as int, max_int(min_frame.0 as int, 1)), frame_dw + 1);
            let h = max_int(max_int(raw_h as int, max_int(min_frame.1 as int, 1)), frame_dh + 1);
            let c = snap_size(w - frame_dw, h - frame_dh, *hints);
            &&& c.0 + frame_dw <= u32::MAX
            &&& c.1 + frame_dh <= u32::MAX
        }),
    ensures
        r == constrained_frame(raw_w, raw_h, *hints, frame_dw, frame_dh, min_frame, work),
{
    let w = max_u32(max_u32(raw_w, max_u32(min_frame.0, 1)), frame_dw + 1);
    let h = max_u32(max_u32(raw_h, max_u32(min_frame.1, 1)), frame_dh + 1);
    let (cw, ch) = snap_client_size(w - frame_dw, h - frame_dh, hints);
    let ow = max_u32(min_u32(cw + frame_dw, max_u32(work.0, 1)), max_u32(min_frame.0, 1));
    let oh = max_u32(min_u32(ch + frame_dh, max_u32(work.1, 1)), max_u32(min_frame.1, 1));
    (ow, oh)
}

// ---- laws ----

/// Law: the parsed hints are resizable exactly unless both a minimum and a
/// maximum were read and they are equal.
pub proof fn lemma_parse_resizable(values: Seq<u32>)
    ensures
        parse_hints(values).resizable <==> !(parse_hints(values).min is Some && parse_hints(
            values,
        ).max is Some && parse_hints(values).min == parse_hints(values).max),
{
}

proof fn lemma_inc_snap_range(v: int, base: int, inc: int)
    requires
        inc > 0,
        v >= 0,
        base >= 0,
    ensures
        inc_snap(v, base, inc) >= base,
        inc_snap(v, base, inc) <= max_int(v, base),
{
    if v > base {
        assert(((v - base) / inc) * inc <= v - base && ((v - base) / inc) * inc >= 0)
            by (nonlinear_arith)
            requires
                inc > 0,
                v - base > 0,
        ;
    }
}

proof fn lemma_aspect_ranges(w: int, h: int, hints: ClientSizeHints)
    requires
        w >= 1,
        h >= 1,
    ensures
        1 <= max_aspect_stage(w, h, hints.max_aspect) <= w,
        1 <= min_aspect_stage(max_aspect_stage(w, h, hints.max_aspect), h, hints.min_aspect)
            <= h,
{
    if let Some((num, den)) = hints.max_aspect {
        if w * den > num * h {
            assert((h * num) / (den as int) < w) by (nonlinear_arith)
                requires
                    w * den > num * h,
                    h >= 1,
                    den >= 0,
                    num >= 0,
            ;
        }
    }
    let w3 = max_aspect_stage(w, h, hints.max_aspect);
    if let Some((num, den)) = hints.min_aspect {
        if w3 * den < num * h {
            assert((w3 * den) / (num as int) < h) by (nonlinear_arith)
                requires
                    w3 * den < num * h,
                    w3 >= 1,
                    den >= 0,
                    num >= 0,
            ;
        }
    }
}

/// The intermediate sizes of the policy stay positive and within `u32`.
proof fn lemma_snap_stages(w: u32, h: u32, hints: ClientSizeHints)
    requires
        hints_wf(hints),
    ensures
        ({
            let w1 = ceil_max(floor_min(max_int(w as int, 1), hints.min, true), hints.max, true);
            let h1 = ceil_max(floor_min(max_int(h as int, 1), hints.min, false), hints.max, false);
            let w2 = inc_stage(w1, hints, true);
            let h2 = inc_stage(h1, hints, false);
            let w3 = max_aspect_stage(w2, h2, hints.max_aspect);
            let h3 = min_aspect_stage(w3, h2, hints.min_aspect);
            &&& 1 <= w2 <= u32::MAX
            &&& 1 <= h2 <= u32::MAX
            &&& 1 <= w3 <= w2
            &&& 1 <= h3 <= h2
        }),
{
    let w1 = ceil_max(floor_min(max_int(w as int, 1), hints.min, true), hints.max, true);
    let h1 = ceil_max(floor_min(max_int(h as int, 1), hints.min, false), hints.max, false);
    if let Some(i) = hints.inc {
        let bw = match hints.base { Some(b) => b.0 as int, None => 0 };
        let bh = match hints.base { Some(b) => b.1 as int, None => 0 };
        lemma_inc_snap_range(w1, bw, i.0 as int);
        lemma_inc_snap_range(h1, bh, i.1 as int);
    }
    let w2 = inc_stage(w1, hints, true);
    let h2 = inc_stage(h1, hints, false);
    lemma_aspect_ranges(w2, h2, hints);
}

/// Law: with consistent bounds (each maximum at least the minimum), every
/// snapped size lies within `[min, max]`, and a fixed-size window (min equal
/// to max) always snaps to that one size.
pub proof fn lemma_snap_within_bounds(w: u32, h: u32, hints: ClientSizeHints)
    requires
        hints_wf(hints),
        hints.min is Some ==> hints.min.unwrap().0 >= 1 && hints.min.unwrap().1 >= 1,
        (hints.min is Some && hints.max is Some) ==> hints.min.unwrap().0 <= hints.max.unwrap().0
            && hints.min.unwrap().1 <= hints.max.unwrap().1,
    ensures
        hints.min is Some ==> snap_size(w as int, h as int, hints).0 >= hints.min.unwrap().0
            && snap_size(w as int, h as int, hints).1 >= hints.min.unwrap().1,
        hints.max is Some ==> snap_size(w as int, h as int, hints).0 <= max_int(
            hints.max.unwrap().0 as int,
            1,
        ) && snap_size(w as int, h as int, hints).1 <= max_int(hints.max.unwrap().1 as int, 1),
        (hints.min is Some && hints.max == hints.min) ==> snap_size(w as int, h as int, hints)
            == hints.min.unwrap(),
{
    lemma_snap_stages(w, h, hints);
}

/// An upper bound on one axis of the policy's output: the request, the
/// minimum, the base size and 1.
pub open spec fn snap_bound(v: int, h: ClientSizeHints, axis_x: bool) -> int {
    let mn = match h.min {
        Some(p) => (if axis_x { p.0 } else { p.1 }) as int,
        None => 0,
    };
    let b = match h.base {
        Some(p) => (if axis_x { p.0 } else { p.1 }) as int,
        None => 0,
    };
    max_int(max_int(v, mn), max_int(b, 1))
}

/// Law: the size policy never grows a size beyond the request, the minimum
/// and the base size.
pub proof fn lemma_snap_upper_bound(w: u32, h: u32, hints: ClientSizeHints)
    requires
        hints_wf(hints),
    ensures
        snap_size(w as int, h as int, hints).0 <= snap_bound(w as int, hints, true),
        snap_size(w as int, h as int, hints).1 <= snap_bound(h as int, hints, false),
{
    lemma_snap_stages(w, h, hints);
    let w1 = ceil_max(floor_min(max_int(w as int, 1), hints.min, true), hints.max, true);
    let h1 = ceil_max(floor_min(max_int(h as int, 1), hints.min, false), hints.max, false);
    if let Some(i) = hints.inc {
        let bw = match hints.base { Some(b) => b.0 as int, None => 0 };
        let bh = match hints.base { Some(b) => b.1 as int, None => 0 };
        lemma_inc_snap_range(w1, bw, i.0 as int);
        lemma_inc_snap_range(h1, bh, i.1 as int);
    }
}

/// Law: free hints leave every positive size as it is.
pub proof fn lemma_snap_free_identity(w: u32, h: u32)
    requires
        w >= 1,
        h >= 1,
    ensures
        snap_size(w as int, h as int, free_hints()) == (w, h),
{
}

proof fn lemma_inc_snap_step(v: int, base: int, inc: int)
    requires
        inc > 0,
        v > base,
    ensures
        inc_snap(v, base, inc) <= v,
        v - inc_snap(v, base, inc) < inc,
        (inc_snap(v, base, inc) - base) % inc == 0,
{
    let q = (v - base) / inc;
    assert(q * inc <= v - base && v - base - q * inc < inc && (q * inc) % inc == 0) by (nonlinear_arith)
        requires
            inc > 0,
            v - base > 0,
            q == (v - base) / inc,
    ;
}

proof fn lemma_inc_snap_on_grid(v: int, base: int, inc: int)
    requires
        inc > 0,
        v >= base,
        (v - base) % inc == 0,
    ensures
        inc_snap(v, base, inc) == v,
{
    if v > base {
        assert(((v - base) / inc) * inc == v - base) by (nonlinear_arith)
            requires
                inc > 0,
                (v - base) % inc == 0,
        ;
    }
}

/// Hints that only carry increments (and possibly a base size): no
/// minimum, maximum or aspect bounds.
pub open spec fn increments_only(h: ClientSizeHints) -> bool {
    &&& h.inc is Some
    &&& h.min is None
    &&& h.max is None
    &&& h.min_aspect is None
    &&& h.max_aspect is None
}

/// The base size along one axis (0 without one).
pub open spec fn base_on(h: ClientSizeHints, axis_x: bool) -> int {
    match h.base {
        Some(b) => (if axis_x { b.0 } else { b.1 }) as int,
        None => 0,
    }
}

/// The increment along one axis (0 without one).
pub open spec fn inc_on(h: ClientSizeHints, axis_x: bool) -> int {
    match h.inc {
        Some(i) => (if axis_x { i.0 } else { i.1 }) as int,
        None => 0,
    }
}

/// `v` lies on the increment grid of one axis: `base + k * inc`.
pub open spec fn on_grid(v: int, h: ClientSizeHints, axis_x: bool) -> bool {
    v >= base_on(h, axis_x) && (v - base_on(h, axis_x)) % inc_on(h, axis_x) == 0
}

/// Law: with increments alone, each size is rounded down to the increment
/// grid: above the base size, the result is not above the request (taken
/// as at least 1), lies less than one increment below it, and is on the
/// grid (or is the 1-pixel floor); at or below the base size it is the
/// base size (at least 1).
pub proof fn lemma_increment_snap_rounds_down(w: u32, h: u32, hints: ClientSizeHints)
    requires
        hints_wf(hints),
        increments_only(hints),
    ensures
        ({
            let r = snap_size(w as int, h as int, hints);
            let vw = max_int(w as int, 1);
            let vh = max_int(h as int, 1);
            &&& vw > base_on(hints, true) ==> r.0 <= vw && vw - r.0 < inc_on(hints, true) && (r.0 == 1
                || on_grid(r.0 as int, hints, true))
            &&& vw <= base_on(hints, true) ==> r.0 == max_int(base_on(hints, true), 1)
            &&& vh > base_on(hints, false) ==> r.1 <= vh && vh - r.1 < inc_on(hints, false) && (r.1 == 1
                || on_grid(r.1 as int, hints, false))
            &&& vh <= base_on(hints, false) ==> r.1 == max_int(base_on(hints, false), 1)
        }),
{
    let vw = max_int(w as int, 1);
    let vh = max_int(h as int, 1);
    if vw > base_on(hints, true) {
        lemma_inc_snap_step(vw, base_on(hints, true), inc_on(hints, true));
    }
    if vh > base_on(hints, false) {
        lemma_inc_snap_step(vh, base_on(hints, false), inc_on(hints, false));
    }
}

/// Law: a size already on the increment grid, within the minimum and
/// maximum, is left as it is when no aspect bound applies (a client that
/// asks for its own grid size gets it).
pub proof fn lemma_grid_size_is_kept(w: u32, h: u32, hints: ClientSizeHints)
    requires
        hints_wf(hints),
        hints.inc is Some,
        hints.min_aspect is None,
        hints.max_aspect is None,
        w >= 1,
        h >= 1,
        on_grid(w as int, hints, true),
        on_grid(h as int, hints, false),
        hints.min matches Some(m) ==> m.0 <= w && m.1 <= h,
        hints.max matches Some(m) ==> w <= max_int(m.0 as int, 1) && h <= max_int(m.1 as int, 1),
    ensures
        snap_size(w as int, h as int, hints) == (w, h),
{
    lemma_inc_snap_on_grid(w as int, base_on(hints, true), inc_on(hints, true));
    lemma_inc_snap_on_grid(h as int, base_on(hints, false), inc_on(hints, false));
}

proof fn lemma_axis_snap_idempotent(v: int, base: int, inc: int)
    requires
        inc > 0,
        v >= 1,
        base >= 0,
    ensures
        ({
            let r = max_int(inc_snap(v, base, inc), 1);
            max_int(inc_snap(r, base, inc), 1) == r
        }),
{
    let s = inc_snap(v, base, inc);
    if v > base {
        lemma_inc_snap_step(v, base, inc);
    }
    lemma_inc_snap_range(v, base, inc);
    if s >= 1 {
        if v <= base {
            assert((base - base) % inc == 0) by (nonlinear_arith)
                requires
                    inc > 0,
            ;
        }
        lemma_inc_snap_on_grid(s, base, inc);
    } else {
        assert(0 <= (1int / inc) * inc <= 1) by (nonlinear_arith)
            requires
                inc > 0,
        ;
    }
}

/// Law: with increments alone, snapping a snapped size changes nothing.
pub proof fn lemma_increment_snap_idempotent(w: u32, h: u32, hints: ClientSizeHints)
    requires
        hints_wf(hints),
        increments_only(hints),
    ensures
        ({
            let r = snap_size(w as int, h as int, hints);
            snap_size(r.0 as int, r.1 as int, hints) == r
        }),
{
    let (bw, bh) = (base_on(hints, true), base_on(hints, false));
    let (iw, ih) = (inc_on(hints, true), inc_on(hints, false));
    lemma_inc_snap_range(max_int(w as int, 1), bw, iw);
    lemma_inc_snap_range(max_int(h as int, 1), bh, ih);
    let r = snap_size(w as int, h as int, hints);
    assert(r.0 == max_int(inc_snap(max_int(w as int, 1), bw, iw), 1));
    assert(r.1 == max_int(inc_snap(max_int(h as int, 1), bh, ih), 1));
    lemma_axis_snap_idempotent(max_int(w as int, 1), bw, iw);
    lemma_axis_snap_idempotent(max_int(h as int, 1), bh, ih);
    lemma_inc_snap_range(r.0 as int, bw, iw);
    lemma_inc_snap_range(r.1 as int, bh, ih);
    let r2 = snap_size(r.0 as int, r.1 as int, hints);
    assert(r2.0 == max_int(inc_snap(max_int(r.0 as int, 1), bw, iw), 1));
    assert(r2.1 == max_int(inc_snap(max_int(r.1 as int, 1), bh, ih), 1));
}

} // verus!
