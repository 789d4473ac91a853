//! Interaction session: the move / resize / control-press state machine.
//!
//! Tracks an in-progress move, resize or title-bar control press, plus the
//! restore-rect helper for dragging a maximized window.

use vstd::prelude::*;
use crate::arith::{clamp_i32, clamp_int, max_i32, max_int, min_int, sat_i32, sat_sub};
use crate::frame::coords::{RootPoint, RootRect};
use crate::frame::model::{FrameControl, PlacementSnapshot, ResizeEdges};

verus! {

/// Anchor of the pointer within the frame when a move starts:
/// `frac_num / frac_den` across the width, `vertical_offset` below the top.
#[derive(Debug, Clone, Copy, PartialEq, Eq, Structural, Hash)]
pub struct MoveAnchor {
    pub frac_num: u32,
    pub frac_den: u32,
    pub vertical_offset: i32,
    /// Set once the move has passed its activation threshold.
    pub activated: bool,
}

impl MoveAnchor {
    /// True once the move has passed its activation threshold.
    pub open spec fn is_active(self) -> bool {
        self.activated
    }

    pub fn new(frac_num: u32, frac_den: u32, vertical_offset: i32) -> (r: Self)
        ensures
            r.frac_num == frac_num,
            r.frac_den == frac_den,
            r.vertical_offset == vertical_offset,
            !r.is_active(),
    {
        MoveAnchor { frac_num, frac_den, vertical_offset, activated: false }
    }

    /// Mark the move as past its activation threshold.
    pub(crate) fn activate(&mut self)
        ensures
            final(self).frac_num == old(self).frac_num,
            final(self).frac_den == old(self).frac_den,
            final(self).vertical_offset == old(self).vertical_offset,
            final(self).is_active(),
    {
        self.activated = true;
    }

    pub(crate) fn is_activated(self) -> (r: bool)
        ensures
            r == self.is_active(),
    {
        self.activated
    }
}

/// In-progress move session.
#[derive(Debug, Clone, Copy, PartialEq, Eq, Structural, Hash)]
pub struct MoveSession {
    pub client: u32,
    pub start_pointer: RootPoint,
    pub start_placement: PlacementSnapshot,
    pub anchor: MoveAnchor,
    pub grab_window: u32,
}

/// In-progress resize session; `edges` are locked when it begins.
#[derive(Debug, Clone, Copy, PartialEq, Eq, Structural, Hash)]
pub struct ResizeSession {
    pub client: u32,
    pub start_pointer: RootPoint,
    pub start_placement: PlacementSnapshot,
    pub edges: ResizeEdges,
    pub grab_window: u32,
}

/// In-progress title-bar control press; `armed` follows enter/leave.
#[derive(Debug, Clone, Copy, PartialEq, Eq, Structural, Hash)]
pub struct ControlPressSession {
    pub client: u32,
    pub control: FrameControl,
    pub grab_window: u32,
    pub armed: bool,
}

impl ControlPressSession {
    /// A press starts armed.
    pub fn new(client: u32, control: FrameControl, grab_window: u32) -> (r: Self)
        ensures
            r == (ControlPressSession { client, control, grab_window, armed: true }),
    {
        ControlPressSession { client, control, grab_window, armed: true }
    }

    pub fn enter(&mut self)
        ensures
            *final(self) == (ControlPressSession { armed: true, ..*old(self) }),
    {
        self.armed = true;
    }

    pub fn leave(&mut self)
        ensures
            *final(self) == (ControlPressSession { armed: false, ..*old(self) }),
    {
        self.armed = false;
    }
}

/// Interaction session state machine.
#[derive(Debug, Clone, Copy, PartialEq, Eq, Structural, Hash)]
pub enum InteractionSession {
    Idle,
    ControlPress(ControlPressSession),
    Move(MoveSession),
    Resize(ResizeSession),
}

impl Default for InteractionSession {
    fn default() -> (r: Self)
        ensures
            r == InteractionSession::Idle,
    {
        InteractionSession::Idle
    }
}

/// The session after the pointer enters (`armed`) or leaves the pressed
/// control; other sessions are unchanged.
pub open spec fn with_armed(s: InteractionSession, armed: bool) -> InteractionSession {
    match s {
        InteractionSession::ControlPress(c) => InteractionSession::ControlPress(
            ControlPressSession { armed, ..c },
        ),
        _ => s,
    }
}

/// Pointer delta from the start of a move or resize, saturating.
pub open spec fn motion_delta(s: InteractionSession, current: RootPoint) -> Option<RootPoint> {
    match s {
        InteractionSession::Move(m) => Some(
            RootPoint {
                x: sat_i32(current.x - m.start_pointer.x),
                y: sat_i32(current.y - m.start_pointer.y),
            },
        ),
        InteractionSession::Resize(r) => Some(
            RootPoint {
                x: sat_i32(current.x - r.start_pointer.x),
                y: sat_i32(current.y - r.start_pointer.y),
            },
        ),
        _ => None,
    }
}

impl InteractionSession {
    pub fn is_idle(self) -> (r: bool)
        ensures
            r == (self is Idle),
    {
        match self {
            InteractionSession::Idle => true,
            _ => false,
        }
    }

    pub fn begin_move(&mut self, session: MoveSession)
        ensures
            *final(self) == InteractionSession::Move(session),
    {
        *self = InteractionSession::Move(session);
    }

    pub fn begin_resize(&mut self, session: ResizeSession)
        ensures
            *final(self) == InteractionSession::Resize(session),
    {
        *self = InteractionSession::Resize(session);
    }

    pub fn begin_control(&mut self, session: ControlPressSession)
        ensures
            *final(self) == InteractionSession::ControlPress(session),
    {
        *self = InteractionSession::ControlPress(session);
    }

    /// Pointer delta from the session start (`None` unless moving or
    /// resizing); reports the delta only.
    pub fn update_motion(self, current: RootPoint) -> (r: Option<RootPoint>)
        ensures
            r == motion_delta(self, current),
    {
        let start = match self {
            InteractionSession::Idle => return None,
            InteractionSession::Move(m) => m.start_pointer,
            InteractionSession::Resize(r) => r.start_pointer,
            InteractionSession::ControlPress(_) => return None,
        };
        Some(RootPoint::new(sat_sub(current.x, start.x), sat_sub(current.y, start.y)))
    }

    /// Pointer re-entered the pressed control: arm it.
    pub fn control_enter(&mut self)
        ensures
            *final(self) == with_armed(*old(self), true),
    {
        if let InteractionSession::ControlPress(c) = self {
            c.enter();
        }
    }

    /// Pointer left the pressed control: disarm it.
    pub fn control_leave(&mut self)
        ensures
            *final(self) == with_armed(*old(self), false),
    {
        if let InteractionSession::ControlPress(c) = self {
            c.leave();
        }
    }

    /// Release: back to `Idle`; the final point when a session was active.
    pub fn finish(&mut self, point: RootPoint) -> (r: Option<RootPoint>)
        ensures
            *final(self) == InteractionSession::Idle,
            r == (if *old(self) is Idle { None } else { Some(point) }),
    {
        let active = !self.is_idle();
        *self = InteractionSession::Idle;
        if active {
            Some(point)
        } else {
            None
        }
    }

    /// Abort the session.
    pub fn cancel(&mut self)
        ensures
            *final(self) == InteractionSession::Idle,
    {
        *self = InteractionSession::Idle;
    }
}

/// Law: arming and disarming only ever flip `armed` on a control press; the
/// rest of every session is untouched, and toggling back restores it.
pub proof fn lemma_arm_disarm_roundtrip(s: InteractionSession)
    requires
        s matches InteractionSession::ControlPress(c) && c.armed,
    ensures
        with_armed(with_armed(s, false), true) == s,
        with_armed(s, false) is ControlPress,
{
}

/// Round-half-away-from-zero of `n / d` (`d > 0`).
pub open spec fn round_div(n: int, d: int) -> int {
    if n >= 0 {
        if 2 * (n % d) >= d { n / d + 1 } else { n / d }
    } else {
        -(if 2 * ((-n) % d) >= d { (-n) / d + 1 } else { (-n) / d })
    }
}

/// Horizontal offset of the pointer inside the restored rect: the anchor
/// fraction `num / den`, clamped to `0..=1` (0 when `den` is 0), times the
/// width, rounded half away from zero.
pub open spec fn restore_dx(num: u32, den: u32, w: i32) -> int {
    if den == 0 {
        0
    } else {
        round_div(min_int(num as int, den as int) * w, den as int)
    }
}

/// Where [`maximized_restore_rect`] puts the restored rect.
pub open spec fn restore_rect(
    restore: RootRect,
    pointer: RootPoint,
    num: u32,
    den: u32,
    vert_off: i32,
    titlebar_h: i32,
) -> RootRect {
    RootRect {
        x: sat_i32(pointer.x - restore_dx(num, den, restore.w)),
        y: sat_i32(pointer.y - clamp_int(vert_off as int, 0, max_int(titlebar_h as int, 0))),
        w: restore.w,
        h: restore.h,
    }
}

proof fn lemma_round_div_bounds(q: int, w: int, d: int)
    requires
        0 <= q <= d,
        d > 0,
    ensures
        0 <= w ==> 0 <= round_div(q * w, d) <= w,
        w < 0 ==> w <= round_div(q * w, d) <= 0,
{
    if w >= 0 {
        assert(0 <= q * w <= d * w) by (nonlinear_arith)
            requires
                0 <= q <= d,
                0 <= w,
        ;
        assert((q * w) / d <= w) by (nonlinear_arith)
            requires
                0 <= q * w <= d * w,
                d > 0,
        ;
        assert((q * w) / d == w ==> (q * w) % d == 0) by (nonlinear_arith)
            requires
                0 <= q * w <= d * w,
                d > 0,
        ;
    } else {
        assert(0 <= q * (-w) <= d * (-w)) by (nonlinear_arith)
            requires
                0 <= q <= d,
                w < 0,
        ;
        assert(-(q * w) == q * (-w)) by (nonlinear_arith);
        assert(q * w <= 0) by (nonlinear_arith)
            requires
                q >= 0,
                w < 0,
        ;
        if q * w == 0 {
            assert(0int / d == 0 && 0int % d == 0) by (nonlinear_arith)
                requires
                    d > 0,
            ;
        }
        assert((q * (-w)) / d <= -w) by (nonlinear_arith)
            requires
                0 <= q * (-w) <= d * (-w),
                d > 0,
        ;
        assert((q * (-w)) / d == -w ==> (q * (-w)) % d == 0) by (nonlinear_arith)
            requires
                0 <= q * (-w) <= d * (-w),
                d > 0,
        ;
    }
}

/// Place the floating restore rect for a maximized-window drag so the
/// pointer keeps its relative anchor: the horizontal fraction across the
/// width (rounded exactly, half away from zero) and the vertical offset
/// clamped into `0..=titlebar_h`. Width and height are kept.
pub fn maximized_restore_rect(
    restore: RootRect,
    pointer: RootPoint,
    frac_num: u32,
    frac_den: u32,
    vert_off: i32,
    titlebar_h: i32,
) -> (r: RootRect)
    ensures
        r == restore_rect(restore, pointer, frac_num, frac_den, vert_off, titlebar_h),
{
    let dx: i32 = if frac_den == 0 {
        0
    } else {
        let q: u64 = if frac_num < frac_den { frac_num as u64 } else { frac_den as u64 };
        let d: u64 = frac_den as u64;
        let neg = restore.w < 0;
        let mag: u64 = if neg { (-(restore.w as i64)) as u64 } else { restore.w as u64 };
        proof {
            assert(q * mag <= 0xffff_ffffu64 * 0x8000_0000u64) by (nonlinear_arith)
                requires
                    q <= 0xffff_ffff,
                    mag <= 0x8000_0000,
            ;
            lemma_round_div_bounds(q as int, restore.w as int, d as int);
            assert(min_int(frac_num as int, frac_den as int) == q);
            if neg {
                assert(-(q * restore.w) == q * mag) by (nonlinear_arith)
                    requires
                        mag == -restore.w,
                ;
            } else {
                assert(q * restore.w == q * mag) by (nonlinear_arith)
                    requires
                        mag == restore.w,
                ;
            }
        }
        let p: u64 = q * mag;
        let fl: u64 = p / d;
        let rem: u64 = p % d;
        let rounded: u64 = if 2 * rem >= d { fl + 1 } else { fl };
        if neg {
            (-(rounded as i64)) as i32
        } else {
            rounded as i32
        }
    };
    let titlebar_h = max_i32(titlebar_h, 0);
    let vert = clamp_i32(vert_off, 0, titlebar_h);
    RootRect::new(sat_sub(pointer.x, dx), sat_sub(pointer.y, vert), restore.w, restore.h)
}

/// Law: dragging a maximized window does not make it jump: the pointer
/// keeps its offset from the restored rect's top-left, horizontally within
/// `0..=w` (a nonnegative width) and vertically within `0..=titlebar_h`.
pub proof fn lemma_restore_no_jump(
    restore: RootRect,
    pointer: RootPoint,
    num: u32,
    den: u32,
    vert_off: i32,
    titlebar_h: i32,
)
    requires
        restore.w >= 0,
        i32::MIN + restore.w <= pointer.x,
        i32::MIN + max_int(titlebar_h as int, 0) <= pointer.y,
    ensures
        ({
            let r = restore_rect(restore, pointer, num, den, vert_off, titlebar_h);
            &&& 0 <= pointer.x - r.x <= restore.w
            &&& pointer.x - r.x == restore_dx(num, den, restore.w)
            &&& 0 <= pointer.y - r.y <= max_int(titlebar_h as int, 0)
            &&& r.w == restore.w
            &&& r.h == restore.h
        }),
{
    if den != 0 {
        lemma_round_div_bounds(min_int(num as int, den as int), restore.w as int, den as int);
    }
}

} // verus!
