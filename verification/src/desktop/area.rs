//! Rectangles as the desktop services report them (signed sizes), the root
//! work area published in `_NET_WORKAREA`, and the outputs it covers.

use vstd::prelude::*;
use crate::arith::{wrap_i32, wrap_u32_to_i32, max_int, min_int};
use crate::desktop::error::DesktopError;

verus! {

/// A rectangle with signed size; it is valid when both sides are positive.
#[derive(Debug, Clone, Copy, PartialEq, Eq, Structural, Hash)]
pub struct DesktopRect {
    pub x: i32,
    pub y: i32,
    pub width: i32,
    pub height: i32,
}

impl DesktopRect {
    pub open spec fn valid(self) -> bool {
        self.width > 0 && self.height > 0
    }

    /// `(px, py)` lies inside (left and top edges included, right and
    /// bottom excluded).
    pub open spec fn holds(self, px: int, py: int) -> bool {
        self.x <= px < self.x + self.width && self.y <= py < self.y + self.height
    }

    pub fn is_valid(&self) -> (r: bool)
        ensures
            r == self.valid(),
    {
        self.width > 0 && self.height > 0
    }

    pub fn contains(&self, px: i32, py: i32) -> (r: bool)
        ensures
            r == self.holds(px as int, py as int),
    {
        let px = px as i64;
        let py = py as i64;
        self.x as i64 <= px && px < self.x as i64 + self.width as i64 && self.y as i64 <= py && py
            < self.y as i64 + self.height as i64
    }

    /// The overlap of two rectangles, when it is not empty.
    pub fn intersection(&self, other: DesktopRect) -> (r: Option<DesktopRect>)
        ensures
            r == intersect_spec(*self, other),
    {
        let left = if self.x > other.x { self.x } else { other.x };
        let top = if self.y > other.y { self.y } else { other.y };
        let a_right = self.x as i64 + self.width as i64;
        let b_right = other.x as i64 + other.width as i64;
        let a_bottom = self.y as i64 + self.height as i64;
        let b_bottom = other.y as i64 + other.height as i64;
        let right = if a_right < b_right { a_right } else { b_right };
        let bottom = if a_bottom < b_bottom { a_bottom } else { b_bottom };
        if right > left as i64 && bottom > top as i64 {
            Some(DesktopRect { x: left, y: top, width: (right - left as i64) as i32, height: (bottom - top as i64) as i32 })
        } else {
            None
        }
    }
}

/// The overlap of `a` and `b`: from the larger left and top to the smaller
/// right and bottom, when that is not empty.
pub open spec fn intersect_spec(a: DesktopRect, b: DesktopRect) -> Option<DesktopRect> {
    let left = max_int(a.x as int, b.x as int);
    let top = max_int(a.y as int, b.y as int);
    let right = min_int(a.x + a.width, b.x + b.width);
    let bottom = min_int(a.y + a.height, b.y + b.height);
    if right > left && bottom > top {
        Some(DesktopRect { x: left as i32, y: top as i32, width: (right - left) as i32, height: (bottom - top) as i32 })
    } else {
        None
    }
}

/// The root work area for the current desktop: its four words of
/// `_NET_WORKAREA` (x and y reinterpreted as signed); unavailable when the
/// property is too short, invalid when the index overflows or the area is
/// empty.
pub open spec fn work_area_of_spec(current: Option<u32>, values: Seq<u32>) -> Result<DesktopRect, DesktopError> {
    let d: int = match current {
        Some(v) => v as int,
        None => 0,
    };
    let start = d * 4;
    if start > usize::MAX {
        Err(DesktopError::WorkAreaInvalid)
    } else if values.len() < start + 4 {
        Err(DesktopError::WorkAreaUnavailable)
    } else {
        let area = DesktopRect {
            x: wrap_i32(values[start]),
            y: wrap_i32(values[start + 1]),
            width: wrap_i32(values[start + 2]),
            height: wrap_i32(values[start + 3]),
        };
        if area.valid() {
            Ok(area)
        } else {
            Err(DesktopError::WorkAreaInvalid)
        }
    }
}

/// Pick the current desktop's rectangle out of `_NET_WORKAREA`.
pub fn root_work_area(current_desktop: Option<u32>, values: &[u32]) -> (r: Result<DesktopRect, DesktopError>)
    ensures
        r == work_area_of_spec(current_desktop, values@),
{
    let desktop: usize = match current_desktop {
        Some(v) => {
            if v as u64 > usize::MAX as u64 {
                return Err(DesktopError::WorkAreaInvalid);
            }
            v as usize
        },
        None => 0,
    };
    let start = match desktop.checked_mul(4) {
        Some(s) => s,
        None => return Err(DesktopError::WorkAreaInvalid),
    };
    if start > values.len() || values.len() - start < 4 {
        return Err(DesktopError::WorkAreaUnavailable);
    }
    let area = DesktopRect {
        x: wrap_u32_to_i32(values[start]),
        y: wrap_u32_to_i32(values[start + 1]),
        width: wrap_u32_to_i32(values[start + 2]),
        height: wrap_u32_to_i32(values[start + 3]),
    };
    if area.is_valid() {
        Ok(area)
    } else {
        Err(DesktopError::WorkAreaInvalid)
    }
}

/// An output by name and the rectangle it shows.
#[derive(Debug, Clone, PartialEq, Eq)]
pub struct OutputGeometry {
    pub name: String,
    pub geometry: DesktopRect,
}

/// The name of the first output holding the point, if any.
pub open spec fn output_at_spec(outs: Seq<OutputGeometry>, px: int, py: int) -> Option<Seq<char>>
    decreases outs.len(),
{
    if outs.len() == 0 {
        None
    } else if outs[0].geometry.holds(px, py) {
        Some(outs[0].name@)
    } else {
        output_at_spec(outs.drop_first(), px, py)
    }
}

/// The first output whose rectangle holds `(px, py)`.
pub fn output_at(outputs: &[OutputGeometry], px: i32, py: i32) -> (r: Option<String>)
    ensures
        r matches Some(s) ==> output_at_spec(outputs@, px as int, py as int) == Some(s@),
        r is None <==> output_at_spec(outputs@, px as int, py as int) is None,
{
    let mut i: usize = 0;
    assert(outputs@.subrange(0, outputs@.len() as int) =~= outputs@);
    while i < outputs.len()
        invariant
            0 <= i <= outputs@.len(),
            output_at_spec(outputs@.subrange(i as int, outputs@.len() as int), px as int, py as int)
                == output_at_spec(outputs@, px as int, py as int),
        decreases outputs@.len() - i,
    {
        let ghost rest = outputs@.subrange(i as int, outputs@.len() as int);
        assert(rest.drop_first() =~= outputs@.subrange(i as int + 1, outputs@.len() as int));
        assert(rest[0] == outputs@[i as int]);
        if outputs[i].geometry.contains(px, py) {
            return Some(outputs[i].name.clone());
        }
        i += 1;
    }
    None
}

/// The output a window shows on: the one holding the centre of its
/// geometry, else the default output.
pub open spec fn window_output_spec(outs: Seq<OutputGeometry>, x: i16, y: i16, width: u16, height: u16) -> Seq<char> {
    match output_at_spec(outs, x + width / 2, y + height / 2) {
        Some(n) => n,
        None => "default"@,
    }
}

pub fn window_output(outputs: &[OutputGeometry], x: i16, y: i16, width: u16, height: u16) -> (r: String)
    ensures
        r@ == window_output_spec(outputs@, x, y, width, height),
{
    let cx = x as i32 + (width / 2) as i32;
    let cy = y as i32 + (height / 2) as i32;
    match output_at(outputs, cx, cy) {
        Some(name) => name,
        None => String::from_str("default"),
    }
}

/// The part of each output inside the work area, in output order; outputs
/// outside it are left out.
pub open spec fn work_areas_spec(outs: Seq<OutputGeometry>, work: DesktopRect) -> Seq<(Seq<char>, DesktopRect)>
    decreases outs.len(),
{
    if outs.len() == 0 {
        Seq::empty()
    } else {
        let prev = work_areas_spec(outs.drop_last(), work);
        match intersect_spec(outs.last().geometry, work) {
            Some(a) => prev.push((outs.last().name@, a)),
            None => prev,
        }
    }
}

pub open spec fn named_areas(v: Seq<(String, DesktopRect)>) -> Seq<(Seq<char>, DesktopRect)> {
    Seq::new(v.len(), |i: int| (v[i].0@, v[i].1))
}

/// Each output's share of the work area.
pub fn base_work_areas(outputs: &[OutputGeometry], work: DesktopRect) -> (r: Vec<(String, DesktopRect)>)
    ensures
        named_areas(r@) == work_areas_spec(outputs@, work),
{
    let mut out: Vec<(String, DesktopRect)> = Vec::new();
    let mut i: usize = 0;
    while i < outputs.len()
        invariant
            0 <= i <= outputs@.len(),
            named_areas(out@) == work_areas_spec(outputs@.take(i as int), work),
        decreases outputs@.len() - i,
    {
        assert(outputs@.take(i as int + 1).drop_last() =~= outputs@.take(i as int));
        let ghost before = out@;
        match outputs[i].geometry.intersection(work) {
            Some(area) => {
                out.push((outputs[i].name.clone(), area));
                assert(named_areas(out@) =~= named_areas(before).push((outputs@[i as int].name@, area)));
            },
            None => {},
        }
        i += 1;
    }
    assert(outputs@.take(outputs@.len() as int) =~= outputs@);
    out
}

/// Law: an overlap lies inside both rectangles and is valid.
pub proof fn lemma_intersection_inside(a: DesktopRect, b: DesktopRect)
    ensures
        intersect_spec(a, b) matches Some(r) ==> {
            &&& r.valid()
            &&& forall|px: int, py: int| r.holds(px, py) ==> a.holds(px, py) && b.holds(px, py)
        },
{
}

/// Law: a work area the desktop reports is never empty.
pub proof fn lemma_work_area_valid(current: Option<u32>, values: Seq<u32>)
    ensures
        work_area_of_spec(current, values) matches Ok(r) ==> r.valid(),
{
}

} // verus!
