//! Decoration policy: who draws a managed window's frame.
//!
//! No verified client-side-decoration hint exists, so `ClientDecorated`
//! is reserved and not produced; `_GTK_FRAME_EXTENTS` alone is never a
//! signal and `WM_CLASS` is never consulted.

use vstd::prelude::*;
use crate::size_hints::{ClientSizeHints, parse_hints};

verus! {

/// Who draws a managed client's borders and title bar.
#[derive(Debug, Clone, Copy, PartialEq, Eq, Structural, Default)]
pub enum DecorationPolicy {
    /// The window manager frames and paints it.
    #[default]
    ServerDecorated,
    /// Reserved: the client draws its own decorations.
    ClientDecorated,
    /// No frame (override-redirect, a non-normal type, or an explicit Motif
    /// no-decoration request).
    Undecorated,
}

impl DecorationPolicy {
    pub fn has_flame_frame(self) -> (r: bool)
        ensures
            r == (self is ServerDecorated),
    {
        match self {
            DecorationPolicy::ServerDecorated => true,
            _ => false,
        }
    }
}

/// Already-read hints the decision uses.
#[derive(Debug, Clone, Copy, Default)]
pub struct DecorationRequest {
    /// ICCCM `override_redirect`.
    pub override_redirect: bool,
    /// No EWMH type, or only `_NET_WM_WINDOW_TYPE_NORMAL`.
    pub is_normal_type: bool,
    /// `_MOTIF_WM_HINTS` asks for no decorations.
    pub motif_no_decorations: bool,
}

/// Override-redirect, a non-normal type or the Motif request each mean no
/// frame; anything else keeps the server frame.
pub fn decide(request: DecorationRequest) -> (r: DecorationPolicy)
    ensures
        r == (if request.override_redirect || !request.is_normal_type || request.motif_no_decorations {
            DecorationPolicy::Undecorated
        } else {
            DecorationPolicy::ServerDecorated
        }),
{
    if request.override_redirect {
        return DecorationPolicy::Undecorated;
    }
    if !request.is_normal_type {
        return DecorationPolicy::Undecorated;
    }
    if request.motif_no_decorations {
        return DecorationPolicy::Undecorated;
    }
    DecorationPolicy::ServerDecorated
}

/// Resizable from raw `WM_NORMAL_HINTS` cardinals: fixed-size only when a
/// minimum and a maximum are both present and equal.
pub fn normal_hints_resizable(values: &[u32]) -> (r: bool)
    ensures
        r == parse_hints(values@).resizable,
{
    ClientSizeHints::parse(values).resizable
}

/// An explicit Motif no-decoration request: the decorations flag
/// (`flags & 2`) set and `decorations == 0` (words: flags, functions,
/// decorations, input mode, status).
pub fn motif_no_decorations(values: &[u32]) -> (r: bool)
    ensures
        r == (values@.len() >= 3 && values@[0] & 2 != 0 && values@[2] == 0),
{
    if values.len() < 3 {
        return false;
    }
    values[0] & 2 != 0 && values[2] == 0
}

} // verus!
