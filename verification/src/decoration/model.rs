//! Point-in-time frame inputs of one paint pass.

use vstd::prelude::*;
use crate::chrome::ControlRole;
use crate::geometry::Rect;

verus! {

/// Frame inputs for one paint pass.
#[derive(Debug, Clone)]
pub struct FrameSnapshot {
    pub frame: u32,
    pub outer: Rect,
    pub title: String,
    pub title_text_width: i32,
    pub has_native_icon: bool,
    pub has_catalog_icon: bool,
    pub hover: Option<ControlRole>,
    pub active: bool,
    pub maximized: bool,
    pub fullscreen: bool,
    pub close_hover: bool,
    pub titlebar_height: u16,
}

} // verus!
