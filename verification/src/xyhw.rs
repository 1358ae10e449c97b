//! Screen rectangles: the geometry values that windows and workspaces carry.

use vstd::prelude::*;

verus! {

/// A screen rectangle: position (`x`, `y`) and size (`h`, `w`) in pixels.
///
/// Coordinates come from the display server and may be any `i32`; the
/// geometry arithmetic in this crate therefore wraps on overflow instead of
/// panicking, and the contracts state the wrapped values exactly.
#[derive(Clone, Copy, PartialEq, Eq, Structural, Debug)]
pub struct XYHW {
    pub x: i32,
    pub y: i32,
    pub h: i32,
    pub w: i32,
}

/// `i32` addition that wraps around on overflow.
pub open spec fn wadd(a: i32, b: i32) -> i32 {
    vstd::wrapping::i32_specs::wrapping_add(a, b)
}

/// `i32` subtraction that wraps around on overflow.
pub open spec fn wsub(a: i32, b: i32) -> i32 {
    vstd::wrapping::i32_specs::wrapping_sub(a, b)
}

/// Half of `v`, rounded toward zero, as Rust's `/ 2` computes it.
pub open spec fn half_spec(v: i32) -> i32 {
    if v >= 0 {
        (v / 2) as i32
    } else {
        (0 - ((0 - (v as int)) / 2)) as i32
    }
}

/// Half of `v`, rounded toward zero.
pub fn half(v: i32) -> (r: i32)
    ensures
        r == half_spec(v),
{
    v / 2
}

impl XYHW {
    /// The zero-sized rectangle at the origin: the default geometry a window
    /// gets before anything better is known.
    pub open spec fn zero_spec() -> XYHW {
        XYHW { x: 0, y: 0, h: 0, w: 0 }
    }

    /// Builds the default (zero) rectangle.
    pub fn zero() -> (r: XYHW)
        ensures
            r == XYHW::zero_spec(),
    {
        XYHW { x: 0, y: 0, h: 0, w: 0 }
    }
}

/// The rectangle left of `r` after the bar `o` is trimmed from one edge.
///
/// `o` is treated as a horizontal bar when it is wider than tall and as a
/// vertical bar otherwise; whichever edge of `r` it sits against is pulled
/// in by the overlap. A bar that does not reach `r` trims nothing.
pub open spec fn without_spec(r: XYHW, o: XYHW) -> XYHW {
    if o.w > o.h {
        if o.y <= r.y {
            let diff = wsub(wadd(o.y, o.h), r.y);
            if diff > 0 {
                XYHW { y: wadd(r.y, diff), h: wsub(r.h, diff), ..r }
            } else {
                r
            }
        } else {
            let diff = wsub(wadd(r.y, r.h), o.y);
            if diff > 0 {
                XYHW { h: wsub(r.h, diff), ..r }
            } else {
                r
            }
        }
    } else {
        if o.x <= r.x {
            let diff = wsub(wadd(o.x, o.w), r.x);
            if diff > 0 {
                XYHW { x: wadd(r.x, diff), w: wsub(r.w, diff), ..r }
            } else {
                r
            }
        } else {
            let diff = wsub(wadd(r.x, r.w), o.x);
            if diff > 0 {
                XYHW { w: wsub(r.w, diff), ..r }
            } else {
                r
            }
        }
    }
}

impl XYHW {
    /// Trims the bar `other` from whichever edge of `self` it sits against
    /// (see [`without_spec`]).
    pub fn without(&self, other: &XYHW) -> (r: XYHW)
        ensures
            r == without_spec(*self, *other),
    {
        let mut r = *self;
        if other.w > other.h {
            if other.y <= r.y {
                let diff = other.y.wrapping_add(other.h).wrapping_sub(r.y);
                if diff > 0 {
                    r.y = r.y.wrapping_add(diff);
                    r.h = r.h.wrapping_sub(diff);
                }
            } else {
                let diff = r.y.wrapping_add(r.h).wrapping_sub(other.y);
                if diff > 0 {
                    r.h = r.h.wrapping_sub(diff);
                }
            }
        } else {
            if other.x <= r.x {
                let diff = other.x.wrapping_add(other.w).wrapping_sub(r.x);
                if diff > 0 {
                    r.x = r.x.wrapping_add(diff);
                    r.w = r.w.wrapping_sub(diff);
                }
            } else {
                let diff = r.x.wrapping_add(r.w).wrapping_sub(other.x);
                if diff > 0 {
                    r.w = r.w.wrapping_sub(diff);
                }
            }
        }
        r
    }
}

impl Default for XYHW {
    fn default() -> (r: XYHW)
        ensures
            r == XYHW::zero_spec(),
    {
        XYHW::zero()
    }
}

} // verus!
