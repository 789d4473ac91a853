//! Chrome refresh decisions: which metadata or state changes invalidate a
//! frame's cached title-bar scene.
//!
//! The manage and property paths perform the X round-trips; these
//! functions only compare already-fetched values.

use vstd::prelude::*;
use crate::frame::model::FrameControl;

verus! {

/// Cached identity inputs, owned outside paint.
#[derive(Debug, Clone, Default, PartialEq, Eq)]
pub struct ChromeIdentity {
    pub title: String,
    pub wm_instance: String,
    pub wm_class: String,
}

/// State inputs whose change invalidates the cached scene.
#[derive(Debug, Clone, Copy, PartialEq, Eq, Structural)]
pub struct ChromeState {
    pub frame_w: u32,
    pub frame_h: u32,
    pub active: bool,
    pub hover: Option<FrameControl>,
    pub pressed: Option<FrameControl>,
    pub maximized: bool,
    pub fullscreen: bool,
}

/// What changed in a manage/property refresh.
#[derive(Debug, Clone, Copy, Default, PartialEq, Eq, Structural)]
pub struct ChromeRefresh {
    pub title_changed: bool,
    pub class_changed: bool,
    pub icon_changed: bool,
}

impl ChromeRefresh {
    /// Any facet changed.
    pub fn needs_repaint(self) -> (r: bool)
        ensures
            r == (self.title_changed || self.class_changed || self.icon_changed),
    {
        self.title_changed || self.class_changed || self.icon_changed
    }
}

fn string_eq_str(a: &String, b: &str) -> (r: bool)
    ensures
        r == (a@ == b@),
{
    let t = String::from_str(b);
    *a == t
}

/// Compare fetched title and class values with the cached identity.
pub fn decide_refresh(
    old: &ChromeIdentity,
    title: &str,
    wm_instance: &str,
    wm_class: &str,
    icon_changed: bool,
) -> (r: ChromeRefresh)
    ensures
        r == (ChromeRefresh {
            title_changed: old.title@ != title@,
            class_changed: old.wm_instance@ != wm_instance@ || old.wm_class@ != wm_class@,
            icon_changed,
        }),
{
    ChromeRefresh {
        title_changed: !string_eq_str(&old.title, title),
        class_changed: !string_eq_str(&old.wm_instance, wm_instance) || !string_eq_str(&old.wm_class, wm_class),
        icon_changed,
    }
}

/// The scene is invalid without a previous state or when the state
/// differs.
pub fn state_changed(old: Option<ChromeState>, next: ChromeState) -> (r: bool)
    ensures
        r == (match old {
            Some(o) => o != next,
            None => true,
        }),
{
    match old {
        Some(o) => o != next,
        None => true,
    }
}

} // verus!
