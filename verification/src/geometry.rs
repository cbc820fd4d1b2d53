//! Bounding rectangles and the position/size-delta arithmetic used by the
//! geometry-delta behaviors.
//!
//! Coordinates are whole pixels.  Every rectangle the engine works with is
//! bounded by [`COORD_LIMIT`], which keeps all of the delta arithmetic
//! comfortably inside the machine integer types.

use vstd::prelude::*;

verus! {

/// Bound on every coordinate the engine accepts: one binary billion
/// pixels, far beyond any real viewport.
pub const COORD_LIMIT: i64 = 0x4000_0000;

/// An element's bounding rectangle: viewport-relative position and
/// rendered size, in whole pixels.
#[derive(Clone, Copy, PartialEq, Eq, Structural, Debug)]
pub struct Rect {
    pub left: i64,
    pub top: i64,
    pub width: i64,
    pub height: i64,
}

impl Rect {
    /// Positions bounded, sizes non-negative and bounded.
    pub open spec fn wf(self) -> bool {
        &&& -COORD_LIMIT <= self.left <= COORD_LIMIT
        &&& -COORD_LIMIT <= self.top <= COORD_LIMIT
        &&& 0 <= self.width <= COORD_LIMIT
        &&& 0 <= self.height <= COORD_LIMIT
    }

    /// A zero-sized rectangle at the origin, the state of an element that
    /// has never been measured.
    pub fn zero() -> (r: Rect)
        ensures
            r == (Rect { left: 0, top: 0, width: 0, height: 0 }),
            r.wf(),
    {
        Rect { left: 0, top: 0, width: 0, height: 0 }
    }

    /// Checks [`Rect::wf`].
    pub fn check_wf(&self) -> (r: bool)
        ensures
            r == self.wf(),
    {
        -COORD_LIMIT <= self.left && self.left <= COORD_LIMIT && -COORD_LIMIT <= self.top
            && self.top <= COORD_LIMIT && 0 <= self.width && self.width <= COORD_LIMIT && 0
            <= self.height && self.height <= COORD_LIMIT
    }

    /// Zero rendered size: such an element is invisible, so no geometry
    /// delta is ever animated from or to it.
    pub open spec fn spec_degenerate(self) -> bool {
        self.width == 0 || self.height == 0
    }

    /// Whether the rectangle has zero rendered size.
    pub fn degenerate(&self) -> (r: bool)
        ensures
            r == self.spec_degenerate(),
    {
        self.width == 0 || self.height == 0
    }
}

/// Division that truncates toward zero, the rounding of the machine
/// division this engine performs on pixel products.
pub open spec fn spec_div_to_zero(a: int, b: int) -> int
    recommends
        b > 0,
{
    if a >= 0 {
        a / b
    } else {
        -((-a) / b)
    }
}

/// Computes `w * o / d` truncating toward zero: the share of a length `w`
/// that a transform-origin offset `o` takes, rescaled by a length `d`.
pub fn mul_div_to_zero(w: i64, o: i64, d: i64) -> (r: i64)
    requires
        0 <= w <= COORD_LIMIT,
        -COORD_LIMIT <= o <= COORD_LIMIT,
        0 < d <= COORD_LIMIT,
    ensures
        r == spec_div_to_zero(w * o, d as int),
        -0x1000_0000_0000_0000 <= r <= 0x1000_0000_0000_0000,
{
    proof {
        assert(w * o <= 0x4000_0000 * 0x4000_0000 && -(0x4000_0000 * 0x4000_0000) <= w * o)
            by (nonlinear_arith)
            requires
                0 <= w <= 0x4000_0000,
                -0x4000_0000 <= o <= 0x4000_0000,
        ;
    }
    if o >= 0 {
        let prod: u64 = (w as u64) * (o as u64);
        let q: u64 = prod / (d as u64);
        proof {
            assert(q <= prod);
        }
        q as i64
    } else {
        let neg: i64 = -o;
        proof {
            assert(w * neg <= 0x4000_0000 * 0x4000_0000) by (nonlinear_arith)
                requires
                    0 <= w <= 0x4000_0000,
                    0 <= neg <= 0x4000_0000,
            ;
        }
        let prod: u64 = (w as u64) * (neg as u64);
        let q: u64 = prod / (d as u64);
        proof {
            assert(q <= prod);
            assert(w * o == -(w * neg)) by (nonlinear_arith)
                requires
                    neg == -o,
            ;
        }
        -(q as i64)
    }
}

/// The apparent horizontal travel of an element between two measurements,
/// accounting for the transform-origin offset `o` along the same axis:
/// where the origin point used to be, minus where it is now.
pub open spec fn spec_travel_axis(
    last_pos: int,
    last_len: int,
    new_pos: int,
    new_len: int,
    o: int,
) -> int {
    last_pos + spec_div_to_zero(last_len * o, new_len) - (new_pos + o)
}

/// Computes one axis of the travel delta.
pub fn travel_axis(last_pos: i64, last_len: i64, new_pos: i64, new_len: i64, o: i64) -> (d: i64)
    requires
        -COORD_LIMIT <= last_pos <= COORD_LIMIT,
        0 <= last_len <= COORD_LIMIT,
        -COORD_LIMIT <= new_pos <= COORD_LIMIT,
        0 < new_len <= COORD_LIMIT,
        -COORD_LIMIT <= o <= COORD_LIMIT,
    ensures
        d == spec_travel_axis(last_pos as int, last_len as int, new_pos as int, new_len as int,
            o as int),
        -0x2000_0000_0000_0000 <= d <= 0x2000_0000_0000_0000,
{
    let scaled: i64 = mul_div_to_zero(last_len, o, new_len);
    last_pos + scaled - new_pos - o
}

/// If nothing moved or resized along an axis, the travel along that axis
/// is zero, whatever the transform-origin offset.
pub proof fn lemma_identical_axis_no_travel(pos: int, len: int, o: int)
    requires
        len > 0,
    ensures
        spec_travel_axis(pos, len, pos, len, o) == 0,
{
    if o >= 0 {
        assert(len * o >= 0) by (nonlinear_arith)
            requires
                len > 0,
                o >= 0,
        ;
        assert((len * o) / len == o) by (nonlinear_arith)
            requires
                len > 0,
        ;
    } else {
        assert(len * o < 0) by (nonlinear_arith)
            requires
                len > 0,
                o < 0,
        ;
        assert(-(len * o) == len * (-o)) by (nonlinear_arith);
        assert((len * (-o)) / len == -o) by (nonlinear_arith)
            requires
                len > 0,
        ;
    }
}

} // verus!
