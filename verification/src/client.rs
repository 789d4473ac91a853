//! A managed client: its windows, authoritative placement and cached
//! metadata.

use vstd::prelude::*;
use crate::chrome::IconImage;
use crate::frame::coords::{RootRect, legacy_to_root, root_to_legacy};
use crate::frame::model::{FrameControl, PlacementMode, PlacementState};
use crate::geometry::Rect;
use crate::size_hints::ClientSizeHints;

verus! {

/// What kind of window a client is, which decides how it is mapped.
#[derive(Debug, Clone, Copy, PartialEq, Eq, Structural, Hash)]
pub enum WindowKind {
    Normal,
    Utility,
    Popup,
    Desktop,
    Dock,
}

/// A managed client window.
#[derive(Debug, Clone)]
pub struct ManagedClient {
    pub client: u32,
    pub frame: u32,
    /// Authoritative geometry and mode.
    pub placement: PlacementState,
    /// Parsed `WM_NORMAL_HINTS` (client pixels).
    pub hints: ClientSizeHints,
    /// Legacy `Rect` mirror of `placement.current`, rewritten on every
    /// placement write.
    pub outer: Rect,
    pub workspace: usize,
    pub title: String,
    pub title_text_width: i32,
    /// Cached `_NET_WM_ICON` selection (largest valid image).
    pub icon: Option<IconImage>,
    /// Why the icon slot fell back to the `WM_CLASS` identity.
    pub icon_fallback: Option<String>,
    pub transient_for: Option<u32>,
    pub minimized: bool,
    pub sticky: bool,
    pub ignore_unmap: u8,
    pub kind: WindowKind,
    /// The control under the pointer inside the title bar, if any.
    pub hover_control: Option<FrameControl>,
}

/// Legacy frame `Rect` to a placement `RootRect`.
pub fn rect_to_root(rect: Rect) -> (r: RootRect)
    ensures
        r == legacy_to_root(rect),
{
    RootRect::from_legacy(rect)
}

/// Placement `RootRect` back to a legacy frame `Rect`.
pub fn root_to_rect(root: RootRect) -> (r: Rect)
    ensures
        r == root_to_legacy(root),
{
    root.to_legacy()
}

/// A floating placement whose restore rect is the current rect, with no
/// resume snapshot.
pub fn placement_floating(current: RootRect) -> (r: PlacementState)
    ensures
        r == (PlacementState {
            mode: PlacementMode::Floating,
            current,
            floating_restore: current,
            resume: None,
        }),
{
    PlacementState { mode: PlacementMode::Floating, current, floating_restore: current, resume: None }
}

impl ManagedClient {
    /// Shown on `workspace`: not minimized, and sticky or on that workspace.
    pub fn visible_on(&self, workspace: usize) -> (r: bool)
        ensures
            r == (!self.minimized && (self.sticky || self.workspace == workspace)),
    {
        !self.minimized && (self.sticky || self.workspace == workspace)
    }

    pub fn is_maximized(&self) -> (r: bool)
        ensures
            r == (self.placement.mode == PlacementMode::Maximized),
    {
        self.placement.mode == PlacementMode::Maximized
    }

    pub fn is_fullscreen(&self) -> (r: bool)
        ensures
            r == (self.placement.mode == PlacementMode::Fullscreen),
    {
        self.placement.mode == PlacementMode::Fullscreen
    }

    /// Set the frame rect: the current rect (and, while floating, the
    /// restore rect) follow; the mode and resume snapshot stay.
    pub fn set_outer(&mut self, outer: Rect)
        ensures
            *final(self) == (ManagedClient {
                placement: PlacementState {
                    current: legacy_to_root(outer),
                    floating_restore: if old(self).placement.mode == PlacementMode::Floating {
                        legacy_to_root(outer)
                    } else {
                        old(self).placement.floating_restore
                    },
                    ..old(self).placement
                },
                outer,
                ..*old(self)
            }),
    {
        let root = rect_to_root(outer);
        self.placement.current = root;
        if self.placement.mode == PlacementMode::Floating {
            self.placement.floating_restore = root;
        }
        self.outer = outer;
    }

    /// Adopt a computed placement; the legacy mirror follows it.
    pub fn apply_placement(&mut self, placement: PlacementState)
        ensures
            *final(self) == (ManagedClient {
                placement,
                outer: root_to_legacy(placement.current),
                ..*old(self)
            }),
    {
        self.placement = placement;
        self.outer = root_to_rect(self.placement.current);
    }
}

/// Law: after `set_outer` with a rect whose size is positive and fits
/// `i32`, the legacy mirror and the authoritative placement agree.
pub proof fn lemma_outer_mirrors_placement(outer: Rect)
    requires
        1 <= outer.width <= i32::MAX,
        1 <= outer.height <= i32::MAX,
    ensures
        root_to_legacy(legacy_to_root(outer)) == outer,
{
}

} // verus!
