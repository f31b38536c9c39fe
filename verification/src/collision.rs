//! Axis-aligned bounding boxes and their exclusive overlap test.

use vstd::prelude::*;

verus! {

/// An axis-aligned bounding box: a center and a half extent per axis,
/// in micro-units.
#[derive(Clone, Copy, PartialEq, Eq, Structural, Debug)]
pub struct Aabb {
    pub cx: i64,
    pub cy: i64,
    pub hx: i64,
    pub hy: i64,
}

impl Aabb {
    /// Centers stay small enough that the overlap test cannot overflow,
    /// and half extents are non-negative.
    pub open spec fn wf(self) -> bool {
        &&& -1_000_000_000_000 <= self.cx <= 1_000_000_000_000
        &&& -1_000_000_000_000 <= self.cy <= 1_000_000_000_000
        &&& 0 <= self.hx <= 1_000_000_000
        &&& 0 <= self.hy <= 1_000_000_000
    }
}

/// Exclusive overlap of two boxes: they share interior points on both axes;
/// boxes that merely touch at an edge do not intersect.
pub open spec fn spec_intersects(a: Aabb, b: Aabb) -> bool {
    &&& a.cx - b.cx < a.hx + b.hx
    &&& b.cx - a.cx < a.hx + b.hx
    &&& a.cy - b.cy < a.hy + b.hy
    &&& b.cy - a.cy < a.hy + b.hy
}

/// Whether two axis-aligned boxes overlap, edges excluded.
pub fn intersects(a: &Aabb, b: &Aabb) -> (r: bool)
    requires
        a.wf(),
        b.wf(),
    ensures
        r == spec_intersects(*a, *b),
{
    let hx = a.hx + b.hx;
    let hy = a.hy + b.hy;
    a.cx - b.cx < hx && b.cx - a.cx < hx && a.cy - b.cy < hy && b.cy - a.cy < hy
}

} // verus!
