//! Plane geometry over fixed-point coordinates: vectors, rectangles, and the
//! axis-aligned overlap test used for pickup collision.

use vstd::prelude::*;
use crate::fx::{abs_i, POS_CAP, CFG_MAX};

verus! {

/// Screen width in fixed-point units (320 pixels).
pub const SIZE_W_FX: i64 = 320 * 1024;

/// Screen height in fixed-point units (240 pixels).
pub const SIZE_H_FX: i64 = 240 * 1024;

/// A two-component fixed-point vector.
#[derive(Clone, Copy, PartialEq, Eq, Structural, Debug)]
pub struct Vec2 {
    pub x: i64,
    pub y: i64,
}

impl Vec2 {
    /// Both components bounded in magnitude by `cap`.
    pub open spec fn bounded(self, cap: int) -> bool {
        abs_i(self.x as int) <= cap && abs_i(self.y as int) <= cap
    }

    /// The origin.
    pub fn zero() -> (r: Vec2)
        ensures
            r == (Vec2 { x: 0, y: 0 }),
    {
        Vec2 { x: 0, y: 0 }
    }
}

/// A width-height extent.
#[derive(Clone, Copy, PartialEq, Eq, Structural, Debug)]
pub struct Extent {
    pub w: i64,
    pub h: i64,
}

impl Extent {
    /// Non-negative and on configuration scale.
    pub open spec fn wf(self) -> bool {
        0 <= self.w <= CFG_MAX && 0 <= self.h <= CFG_MAX
    }
}

/// An axis-aligned rectangle: top-left corner and extent.
#[derive(Clone, Copy, PartialEq, Eq, Structural, Debug)]
pub struct Rect {
    pub x: i64,
    pub y: i64,
    pub w: i64,
    pub h: i64,
}

impl Rect {
    /// Position on screen scale, non-negative extent on configuration scale.
    pub open spec fn wf(self) -> bool {
        &&& abs_i(self.x as int) <= POS_CAP
        &&& abs_i(self.y as int) <= POS_CAP
        &&& 0 <= self.w <= CFG_MAX
        &&& 0 <= self.h <= CFG_MAX
    }
}

/// Two rectangles overlap when each begins strictly before the other ends,
/// on both axes; rectangles that merely touch do not overlap.
pub open spec fn rects_overlap(a: Rect, b: Rect) -> bool {
    &&& a.x < b.x + b.w
    &&& b.x < a.x + a.w
    &&& a.y < b.y + b.h
    &&& b.y < a.y + a.h
}

/// The axis-aligned overlap test, exact to [`rects_overlap`].
pub fn overlaps(a: &Rect, b: &Rect) -> (r: bool)
    requires
        a.wf(),
        b.wf(),
    ensures
        r == rects_overlap(*a, *b),
{
    a.x - b.w < b.x && b.x - a.w < a.x && a.y - b.h < b.y && b.y - a.h < a.y
}

} // verus!
