//! Pointer-release policy and event routing helpers of the window manager:
//! what a move release commits and where a frame event comes from.

use vstd::prelude::*;
use crate::frame::input::{band_i16, frame_control_fallback};
use crate::frame::model::{FrameControl, FrameRegion, PlacementMode, SnapTarget};
use crate::frame::resources::{FrameRegistry, FrameResources, child_seq};
use crate::frame::session::{InteractionSession, MoveSession};

verus! {

/// Edge/corner candidate under the pointer while a window is dragged.
#[derive(Debug, Clone, Copy, PartialEq, Eq, Structural, Hash)]
pub enum SnapCandidate {
    /// No edge or corner under the pointer.
    Nothing,
    LeftHalf,
    RightHalf,
    TopHalf,
    BottomHalf,
    TopLeftQuarter,
    TopRightQuarter,
    BottomLeftQuarter,
    BottomRightQuarter,
    Maximize,
}

/// Counter encoding of a candidate: `Nothing` is 0, then 1..=8 in declaration
/// order, `Maximize` is 9.
pub open spec fn candidate_bits(c: SnapCandidate) -> u64 {
    match c {
        SnapCandidate::Nothing => 0,
        SnapCandidate::LeftHalf => 1,
        SnapCandidate::RightHalf => 2,
        SnapCandidate::TopHalf => 3,
        SnapCandidate::BottomHalf => 4,
        SnapCandidate::TopLeftQuarter => 5,
        SnapCandidate::TopRightQuarter => 6,
        SnapCandidate::BottomLeftQuarter => 7,
        SnapCandidate::BottomRightQuarter => 8,
        SnapCandidate::Maximize => 9,
    }
}

pub fn snap_target_bits(target: SnapCandidate) -> (r: u64)
    ensures
        r == candidate_bits(target),
{
    match target {
        SnapCandidate::Nothing => 0,
        SnapCandidate::LeftHalf => 1,
        SnapCandidate::RightHalf => 2,
        SnapCandidate::TopHalf => 3,
        SnapCandidate::BottomHalf => 4,
        SnapCandidate::TopLeftQuarter => 5,
        SnapCandidate::TopRightQuarter => 6,
        SnapCandidate::BottomLeftQuarter => 7,
        SnapCandidate::BottomRightQuarter => 8,
        SnapCandidate::Maximize => 9,
    }
}

/// What a move release commits.
#[derive(Debug, Clone, Copy, PartialEq, Eq, Structural, Hash)]
pub enum ReleaseAction {
    /// Leave the window where the drag put it.
    Stay,
    Maximize,
    Snap(SnapTarget),
}

/// The release action of a candidate: nothing, maximize, or the matching
/// half/quarter snap.
pub open spec fn action_of(c: SnapCandidate) -> ReleaseAction {
    match c {
        SnapCandidate::Nothing => ReleaseAction::Stay,
        SnapCandidate::Maximize => ReleaseAction::Maximize,
        SnapCandidate::LeftHalf => ReleaseAction::Snap(SnapTarget::Left),
        SnapCandidate::RightHalf => ReleaseAction::Snap(SnapTarget::Right),
        SnapCandidate::TopHalf => ReleaseAction::Snap(SnapTarget::Top),
        SnapCandidate::BottomHalf => ReleaseAction::Snap(SnapTarget::Bottom),
        SnapCandidate::TopLeftQuarter => ReleaseAction::Snap(SnapTarget::TopLeft),
        SnapCandidate::TopRightQuarter => ReleaseAction::Snap(SnapTarget::TopRight),
        SnapCandidate::BottomLeftQuarter => ReleaseAction::Snap(SnapTarget::BottomLeft),
        SnapCandidate::BottomRightQuarter => ReleaseAction::Snap(SnapTarget::BottomRight),
    }
}

pub fn release_action(target: SnapCandidate) -> (r: ReleaseAction)
    ensures
        r == action_of(target),
{
    match target {
        SnapCandidate::Nothing => ReleaseAction::Stay,
        SnapCandidate::Maximize => ReleaseAction::Maximize,
        SnapCandidate::LeftHalf => ReleaseAction::Snap(SnapTarget::Left),
        SnapCandidate::RightHalf => ReleaseAction::Snap(SnapTarget::Right),
        SnapCandidate::TopHalf => ReleaseAction::Snap(SnapTarget::Top),
        SnapCandidate::BottomHalf => ReleaseAction::Snap(SnapTarget::Bottom),
        SnapCandidate::TopLeftQuarter => ReleaseAction::Snap(SnapTarget::TopLeft),
        SnapCandidate::TopRightQuarter => ReleaseAction::Snap(SnapTarget::TopRight),
        SnapCandidate::BottomLeftQuarter => ReleaseAction::Snap(SnapTarget::BottomLeft),
        SnapCandidate::BottomRightQuarter => ReleaseAction::Snap(SnapTarget::BottomRight),
    }
}

/// The move session, if it has passed its activation threshold.
pub fn activated_move(session: Option<MoveSession>) -> (r: Option<MoveSession>)
    ensures
        r == (match session {
            Some(s) => if s.anchor.is_active() { Some(s) } else { None },
            None => None,
        }),
{
    match session {
        Some(s) => if s.anchor.is_activated() { Some(s) } else { None },
        None => None,
    }
}

/// The release action of a move: only an activated move of a floating
/// window may snap or maximize.
pub open spec fn move_release_action(
    session: Option<MoveSession>,
    placement: Option<PlacementMode>,
    target: SnapCandidate,
) -> ReleaseAction {
    if session matches Some(s) && s.anchor.is_active() && placement == Some(PlacementMode::Floating) {
        action_of(target)
    } else {
        ReleaseAction::Stay
    }
}

pub fn release_action_for_move(
    session: Option<MoveSession>,
    placement: Option<PlacementMode>,
    target: SnapCandidate,
) -> (r: ReleaseAction)
    ensures
        r == move_release_action(session, placement, target),
{
    let floating = match placement {
        Some(PlacementMode::Floating) => true,
        _ => false,
    };
    if activated_move(session).is_none() || !floating {
        return ReleaseAction::Stay;
    }
    release_action(target)
}

/// What was in progress when the primary button went up, read before the
/// reducer idles the session.
#[derive(Debug, Clone, Copy, PartialEq, Eq, Structural, Hash)]
pub enum ReleaseOrigin {
    /// No gesture.
    Idle,
    /// A move; its session decides whether the release may snap.
    Move(MoveSession),
    /// A resize: a release never snaps.
    Resize,
    /// A control press: the control to run, or `None` when the press was
    /// released outside it.
    Control(Option<FrameControl>),
}

pub open spec fn origin_of(session: InteractionSession) -> ReleaseOrigin {
    match session {
        InteractionSession::Idle => ReleaseOrigin::Idle,
        InteractionSession::Move(m) => ReleaseOrigin::Move(m),
        InteractionSession::Resize(_) => ReleaseOrigin::Resize,
        InteractionSession::ControlPress(c) => ReleaseOrigin::Control(
            if c.armed { Some(c.control) } else { None },
        ),
    }
}

pub fn release_origin(session: InteractionSession) -> (r: ReleaseOrigin)
    ensures
        r == origin_of(session),
{
    match session {
        InteractionSession::Idle => ReleaseOrigin::Idle,
        InteractionSession::Move(m) => ReleaseOrigin::Move(m),
        InteractionSession::Resize(_) => ReleaseOrigin::Resize,
        InteractionSession::ControlPress(c) => ReleaseOrigin::Control(
            if c.armed { Some(c.control) } else { None },
        ),
    }
}

/// The window a frame event is attributed to: a registered input child
/// wins over the event window.
pub fn resolve_frame_event_source(registry: &FrameRegistry, event: u32, child: u32) -> (r: u32)
    ensures
        r == (if registry.targets().contains_key(child) { child } else { event }),
{
    match registry.lookup_by_xid(child) {
        Some(_) => child,
        None => event,
    }
}

/// A pointer grab may target the frame or one of its input children.
pub fn pointer_grab_target(requested: u32, resources: FrameResources) -> (r: bool)
    ensures
        r == (requested == resources.frame || child_seq(resources).contains(requested)),
{
    if requested == resources.frame {
        return true;
    }
    let children = resources.children();
    let mut i: usize = 0;
    while i < 12
        invariant
            children@ == child_seq(resources),
            i <= 12,
            forall|j: int| 0 <= j < i ==> children@[j] != requested,
        decreases 12 - i,
    {
        if children[i] == requested {
            proof {
                assert(children@[i as int] == requested);
            }
            return true;
        }
        i += 1;
    }
    false
}

/// `value` clamped into the `i16` range.
pub fn clamp_i16(value: i32) -> (r: i16)
    ensures
        r == (if value < -0x8000 { -0x8000 } else if value > 0x7fff { 0x7fff } else { value as int }),
{
    if value < -0x8000 {
        -0x8000
    } else if value > 0x7fff {
        0x7fff
    } else {
        value as i16
    }
}

/// `value` clamped into `1..=u16::MAX`.
pub fn clamp_u16(value: u32) -> (r: u16)
    ensures
        r == (if value < 1 { 1 } else if value > 0xffff { 0xffff } else { value as int }),
{
    if value < 1 {
        1
    } else if value > 0xffff {
        0xffff
    } else {
        value as u16
    }
}

/// The control under the pointer while idle: the control a registered
/// control child stands for, else the titlebar fallback (`hit_at_x` is the
/// control hit at `x` by the skin's button geometry).
pub fn idle_hover(
    registry: &FrameRegistry,
    source: u32,
    outer_width: u32,
    titlebar_h: u16,
    x: i16,
    y: i16,
    hover: Option<FrameControl>,
    hit_at_x: Option<FrameControl>,
) -> (r: Option<FrameControl>)
    ensures
        r == (if registry.targets().contains_key(source) && registry.targets()[source].region is Control {
            Some(registry.targets()[source].region->Control_0)
        } else {
            if y < 0 || y >= band_i16(titlebar_h) { None } else { hit_at_x }
        }),
{
    match registry.lookup_by_xid(source) {
        Some(target) => match target.region {
            FrameRegion::Control(control) => Some(control),
            _ => frame_control_fallback(outer_width, titlebar_h, x, y, hover, hit_at_x),
        },
        None => frame_control_fallback(outer_width, titlebar_h, x, y, hover, hit_at_x),
    }
}

/// The snap preview follows a drag only for an activated move of a window
/// that is floating after the motion.
pub fn preview_allowed(session: Option<MoveSession>, mode_after: Option<PlacementMode>) -> (r: bool)
    ensures
        r == (session matches Some(s) && s.anchor.is_active() && mode_after == Some(
            PlacementMode::Floating,
        )),
{
    let floating = match mode_after {
        Some(PlacementMode::Floating) => true,
        _ => false,
    };
    activated_move(session).is_some() && floating
}

} // verus!
