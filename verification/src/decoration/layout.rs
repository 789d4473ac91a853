//! Decoration drag geometry over legacy frame rects.

use vstd::prelude::*;
use crate::frame::model::{ResizeEdges, edges_resized_rect};
use crate::geometry::Rect;

verus! {

/// Resize drag of a legacy frame rect with a `160 x 96` minimum (the same
/// rule as [`ResizeEdges::resized_rect`]).
pub fn resized_rect(start: Rect, edges: ResizeEdges, dx: i32, dy: i32) -> (r: Rect)
    ensures
        r == edges_resized_rect(start, edges, dx, dy),
{
    ResizeEdges::resized_rect(start, edges, dx, dy)
}

} // verus!
