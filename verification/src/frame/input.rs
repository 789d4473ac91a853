//! Frame input regions: the event source XID decides the target.
//!
//! The window manager registers each frame child window with its
//! [`FrameRegion`]; a known child keeps its registered region (no geometric
//! re-hit-test), anything else, the client window included, is the client.

use vstd::prelude::*;
use std::collections::HashMap;
use crate::frame::model::{FrameControl, FrameRegion};

verus! {

broadcast use vstd::std_specs::hash::group_hash_axioms;

/// Event target: the client plus the resolved region.
#[derive(Debug, Clone, Copy, PartialEq, Eq, Structural, Hash)]
pub struct FrameEventTarget {
    pub client: u32,
    pub region: FrameRegion,
}

/// The region of a source XID: its registered region, else the client.
pub open spec fn region_for(registry: Map<u32, FrameRegion>, source: u32) -> FrameRegion {
    if registry.contains_key(source) {
        registry[source]
    } else {
        FrameRegion::Client
    }
}

/// Identity for a known child region: the source XID is the truth.
pub fn region_for_known_child(region: FrameRegion) -> (r: FrameRegion)
    ensures
        r == region,
{
    region
}

/// Resolve an event source XID through the registry.
pub fn target_for_xid(registry: &HashMap<u32, FrameRegion>, client: u32, source: u32) -> (r:
    FrameEventTarget)
    ensures
        r == (FrameEventTarget { client, region: region_for(registry@, source) }),
{
    let region = match registry.get(&source) {
        Some(region) => region_for_known_child(*region),
        None => FrameRegion::Client,
    };
    FrameEventTarget { client, region }
}

/// The titlebar band as the signed height the hover test compares against:
/// `max(height, 1)` read back as `i16`.
pub open spec fn band_i16(titlebar_height: u16) -> int {
    let b = if titlebar_height >= 1 { titlebar_height as int } else { 1 };
    if b <= 0x7fff { b } else { b - 0x1_0000 }
}

/// Idle-hover fallback for events whose source is not a control child: the
/// control hit at `x` (`hit_at_x`, from the skin's button geometry) when
/// `y` lies inside the titlebar band, else `None`.
pub fn frame_control_fallback(
    frame_width: u32,
    titlebar_height: u16,
    x: i16,
    y: i16,
    current: Option<FrameControl>,
    hit_at_x: Option<FrameControl>,
) -> (r: Option<FrameControl>)
    ensures
        r == (if y < 0 || y >= band_i16(titlebar_height) { None } else { hit_at_x }),
{
    let b: u16 = if titlebar_height >= 1 { titlebar_height } else { 1 };
    let band: i32 = if b <= 0x7fff { b as i32 } else { b as i32 - 0x1_0000 };
    if y < 0 || (y as i32) >= band {
        return None;
    }
    hit_at_x
}

} // verus!
