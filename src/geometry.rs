//! Integer points and sizes, and a draw location given by its floor and ceiling.
use vstd::prelude::*;

verus! {

/// An unsigned 2D integer point, used both as a coordinate and as a size
/// (width `x`, height `y`).
#[derive(Clone, Copy, Debug, PartialEq, Eq, Hash, Structural)]
pub struct UPoint {
    pub x: u32,
    pub y: u32,
}

impl UPoint {
    pub fn new(x: u32, y: u32) -> (r: UPoint)
        ensures
            r == (UPoint { x, y }),
    {
        UPoint { x, y }
    }
}

/// One coordinate of a floating-point location, held as its floor and its
/// ceiling: equal for a whole number, one apart otherwise.
#[derive(Clone, Copy, Debug, PartialEq, Eq, Hash, Structural)]
pub struct AxisPos {
    pub floor: i64,
    pub ceil: i64,
}

impl AxisPos {
    /// The floor and the ceiling of one number.
    pub open spec fn wf(&self) -> bool {
        self.floor == self.ceil || self.floor + 1 == self.ceil
    }

    /// The whole number `n`.
    pub fn whole(n: i64) -> (r: AxisPos)
        ensures
            r == (AxisPos { floor: n, ceil: n }),
    {
        AxisPos { floor: n, ceil: n }
    }

    /// A number strictly between `n` and `n + 1`.
    pub fn inside(n: i64) -> (r: AxisPos)
        requires
            n < i64::MAX,
        ensures
            r == (AxisPos { floor: n, ceil: (n + 1) as i64 }),
    {
        AxisPos { floor: n, ceil: n + 1 }
    }
}

/// A floating-point draw location on a canvas.
#[derive(Clone, Copy, Debug, PartialEq, Eq, Hash, Structural)]
pub struct StampPoint {
    pub x: AxisPos,
    pub y: AxisPos,
}

impl StampPoint {
    pub open spec fn wf(&self) -> bool {
        self.x.wf() && self.y.wf()
    }
}

/// The first pixel, along one axis, that a footprint reaching `half` pixels each
/// way from `p` covers on a canvas starting at zero: `ceil(max(0, p - half))`.
pub open spec fn span_start(p: AxisPos, half: u32) -> int {
    if p.ceil - half > 0 { p.ceil - half } else { 0 }
}

/// The pixel, along one axis, just past those such a footprint covers on a canvas
/// of `extent` pixels: `floor(min(extent, p + half))`.
pub open spec fn span_end(p: AxisPos, half: u32, extent: u32) -> int {
    if p.floor + half < extent { p.floor + half } else { extent as int }
}

/// The pixels `[s, e)` of one axis that a footprint reaching `half` pixels each
/// way from `p` covers on a canvas of `extent` pixels; `(0, 0)` where it covers none.
pub fn span(p: AxisPos, half: u32, extent: u32) -> (r: (u32, u32))
    ensures
        r.0 <= r.1 <= extent,
        r.0 < r.1 <==> span_start(p, half) < span_end(p, half, extent),
        r.0 < r.1 ==> r.0 == span_start(p, half) && r.1 == span_end(p, half, extent),
{
    let s: i128 = if p.ceil as i128 - half as i128 > 0 { p.ceil as i128 - half as i128 } else { 0 };
    let e: i128 = if (p.floor as i128 + half as i128) < extent as i128 {
        p.floor as i128 + half as i128
    } else {
        extent as i128
    };
    if s < e {
        (s as u32, e as u32)
    } else {
        (0, 0)
    }
}

} // verus!
