//! Legacy frame rectangle with an unsigned size.

use vstd::prelude::*;
use crate::arith::{
    clamp_i32, clamp_int, max_i32, max_int, max_u32, min_int, min_u32, sat_add, sat_i32, sat_sub,
    u32_to_i32_sat,
};

verus! {

/// A frame rectangle: signed origin, unsigned size.
#[derive(Debug, Clone, Copy, PartialEq, Eq, Structural, Default)]
pub struct Rect {
    pub x: i32,
    pub y: i32,
    pub width: u32,
    pub height: u32,
}

/// Right edge: `x + width`, the width first capped at `i32::MAX`, the sum
/// saturated.
pub open spec fn rect_right(r: Rect) -> i32 {
    sat_i32(r.x + min_int(r.width as int, i32::MAX as int))
}

/// Bottom edge: `y + height`, capped and saturated as for [`rect_right`].
pub open spec fn rect_bottom(r: Rect) -> i32 {
    sat_i32(r.y + min_int(r.height as int, i32::MAX as int))
}

/// What [`Rect::clamp_inside`] returns: the size shrunk to fit the bounds
/// (at least 1), the origin clamped so the rect starts inside the bounds and,
/// where room allows, ends inside them too.
pub open spec fn rect_clamp_inside(r: Rect, bounds: Rect) -> Rect {
    let width = min_int(r.width as int, max_int(bounds.width as int, 1));
    let height = min_int(r.height as int, max_int(bounds.height as int, 1));
    let max_x = sat_i32(rect_right(bounds) - min_int(width, i32::MAX as int));
    let max_y = sat_i32(rect_bottom(bounds) - min_int(height, i32::MAX as int));
    Rect {
        x: clamp_int(r.x as int, bounds.x as int, max_int(max_x as int, bounds.x as int)) as i32,
        y: clamp_int(r.y as int, bounds.y as int, max_int(max_y as int, bounds.y as int)) as i32,
        width: width as u32,
        height: height as u32,
    }
}

impl Rect {
    pub fn new(x: i32, y: i32, width: u32, height: u32) -> (r: Self)
        ensures
            r == (Rect { x, y, width, height }),
    {
        Rect { x, y, width, height }
    }

    pub fn right(self) -> (r: i32)
        ensures
            r == rect_right(self),
    {
        sat_add(self.x, u32_to_i32_sat(self.width))
    }

    pub fn bottom(self) -> (r: i32)
        ensures
            r == rect_bottom(self),
    {
        sat_add(self.y, u32_to_i32_sat(self.height))
    }

    /// Shrink to fit and move inside `bounds`.
    pub fn clamp_inside(self, bounds: Self) -> (r: Self)
        ensures
            r == rect_clamp_inside(self, bounds),
            r.width <= self.width,
            r.height <= self.height,
            r.x >= bounds.x,
            r.y >= bounds.y,
    {
        let width = min_u32(self.width, max_u32(bounds.width, 1));
        let height = min_u32(self.height, max_u32(bounds.height, 1));
        let max_x = sat_sub(bounds.right(), u32_to_i32_sat(width));
        let max_y = sat_sub(bounds.bottom(), u32_to_i32_sat(height));
        Rect {
            x: clamp_i32(self.x, bounds.x, max_i32(max_x, bounds.x)),
            y: clamp_i32(self.y, bounds.y, max_i32(max_y, bounds.y)),
            width,
            height,
        }
    }
}

/// Law: when the bounds do not reach the end of the `i32` range, a rect
/// clamped inside them also ends inside them, and it always starts inside.
pub proof fn lemma_clamp_inside_contained(r: Rect, bounds: Rect)
    requires
        bounds.x + bounds.width <= i32::MAX,
        bounds.y + bounds.height <= i32::MAX,
        bounds.width >= 1,
        bounds.height >= 1,
    ensures
        ({
            let c = rect_clamp_inside(r, bounds);
            &&& bounds.x <= c.x
            &&& c.x + c.width <= bounds.x + bounds.width
            &&& bounds.y <= c.y
            &&& c.y + c.height <= bounds.y + bounds.height
            &&& c.width == min_int(r.width as int, bounds.width as int)
            &&& c.height == min_int(r.height as int, bounds.height as int)
        }),
{
}

} // verus!
