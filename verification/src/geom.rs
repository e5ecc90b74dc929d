//! Axis-aligned rectangles on the play-field, in fixed-point coordinates.
//!
//! Every length in the simulation is an integer number of subunits,
//! `SCALE` subunits to one world unit.

use vstd::prelude::*;

verus! {

/// Subunits per world unit: all coordinates are tenths of a unit.
pub const SCALE: i64 = 10;

/// Widths, heights and field dimensions stay within this many subunits.
pub const SIZE_LIMIT: i64 = 1_000_000_000;

/// Externally supplied positions (pointer, waypoints) stay within this band.
pub const FIELD_LIMIT: i64 = 1_000_000_000_000;

/// Entity positions stay within this band; movement saturates here.
pub const POS_LIMIT: i64 = 1_000_000_000_000_000;

/// Bound on rectangles derived from an entity rectangle by at most two
/// size-sized offsets (a tower's upgrade and delete buttons).
pub const DERIVED_LIMIT: i64 = POS_LIMIT + 2 * SIZE_LIMIT;

/// Per-tick movement never exceeds this many subunits on an axis.
pub const SPEED_LIMIT: i64 = 1_000_000;

/// Where a coordinate lands after moving by a delta: the exact sum,
/// saturated at the edges of the position band.
pub open spec fn step_coord_spec(x: int, d: int) -> int {
    let s = x + d;
    if s < -POS_LIMIT {
        -POS_LIMIT as int
    } else if s > POS_LIMIT {
        POS_LIMIT as int
    } else {
        s
    }
}

/// The product of two nonnegative bounded values is nonnegative and
/// bounded by the product of the bounds.
pub proof fn lemma_mul_bounds(a: int, b: int, amax: int, bmax: int)
    by (nonlinear_arith)
    requires
        0 <= a <= amax,
        0 <= b <= bmax,
    ensures
        0 <= a * b <= amax * bmax,
{
}

/// Advance a coordinate by a delta, saturating at the position band.
pub fn step_coord(x: i64, d: i64) -> (r: i64)
    requires
        -POS_LIMIT <= x <= POS_LIMIT,
        -SPEED_LIMIT <= d <= SPEED_LIMIT,
    ensures
        r == step_coord_spec(x as int, d as int),
        -POS_LIMIT <= r <= POS_LIMIT,
{
    let s = x + d;
    if s < -POS_LIMIT {
        -POS_LIMIT
    } else if s > POS_LIMIT {
        POS_LIMIT
    } else {
        s
    }
}

/// A position and a size; centers are derived, never stored.
#[derive(Clone, Copy, PartialEq, Eq, Structural, Debug)]
pub struct Rect {
    pub x: i64,
    pub y: i64,
    pub w: i64,
    pub h: i64,
}

impl Rect {
    /// The rectangle lies within `m` subunits of the origin and its sides
    /// are nonnegative and at most `SIZE_LIMIT`.
    pub open spec fn bounded(self, m: int) -> bool {
        &&& -m <= self.x <= m
        &&& -m <= self.y <= m
        &&& 0 <= self.w <= SIZE_LIMIT
        &&& 0 <= self.h <= SIZE_LIMIT
    }

    /// Well-formed entity rectangle: within the position band.
    pub open spec fn wf(self) -> bool {
        self.bounded(POS_LIMIT as int)
    }

    /// Construct a new Rect from position and size.
    pub fn new(x: i64, y: i64, w: i64, h: i64) -> (r: Rect)
        ensures
            r == (Rect { x, y, w, h }),
    {
        Rect { x, y, w, h }
    }

    /// Returns the x coordinate of the Rect.
    pub fn x(&self) -> (r: i64)
        ensures
            r == self.x,
    {
        self.x
    }

    /// Returns the y coordinate of the Rect.
    pub fn y(&self) -> (r: i64)
        ensures
            r == self.y,
    {
        self.y
    }

    /// Returns the width of the Rect.
    pub fn w(&self) -> (r: i64)
        ensures
            r == self.w,
    {
        self.w
    }

    /// Returns the height of the Rect.
    pub fn h(&self) -> (r: i64)
        ensures
            r == self.h,
    {
        self.h
    }

    /// The x coordinate of the center, derived from position and width.
    pub open spec fn spec_center_x(self) -> int {
        self.x + self.w / 2
    }

    /// The y coordinate of the center, derived from position and height.
    pub open spec fn spec_center_y(self) -> int {
        self.y + self.h / 2
    }

    /// Returns the x coordinate of the center of the Rect.
    pub fn center_x(&self) -> (r: i64)
        requires
            self.bounded(DERIVED_LIMIT as int),
        ensures
            r == self.spec_center_x(),
    {
        self.x + self.w / 2
    }

    /// Returns the y coordinate of the center of the Rect.
    pub fn center_y(&self) -> (r: i64)
        requires
            self.bounded(DERIVED_LIMIT as int),
        ensures
            r == self.spec_center_y(),
    {
        self.y + self.h / 2
    }

    /// Move the rectangle; the size is unchanged and the center follows.
    pub fn set_pos(&mut self, x: i64, y: i64)
        ensures
            *final(self) == (Rect { x, y, ..*old(self) }),
    {
        self.x = x;
        self.y = y;
    }
}

} // verus!
