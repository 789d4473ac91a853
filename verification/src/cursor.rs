//! Semantic pointer cursors that the frame code asks the renderer for.

use vstd::prelude::*;

verus! {

/// Which cursor a frame region shows.
#[derive(Debug, Clone, Copy, PartialEq, Eq, Structural, Hash)]
pub enum CursorKind {
    Default,
    Move,
    ResizeHorizontal,
    ResizeVertical,
    ResizeNorthWestSouthEast,
    ResizeNorthEastSouthWest,
}

} // verus!
