//! Axis-aligned rectangle geometry and the fixed-point coordinate model.
//!
//! Positions are measured in micro-units: `SCALE` micro-units make one world
//! unit. Widths and heights are whole world units and never change after
//! construction; only positions are mutated.

use vstd::prelude::*;

verus! {

/// Micro-units in one world unit.
pub const SCALE: i64 = 1_000_000;

/// Tolerance of the boundary equality test, in micro-units: one
/// millionth of a world unit.
pub const EPSILON: i64 = 1;

/// Displacement of one fixed simulation step: a velocity in world units per
/// second times this factor is the displacement of one step (a hundredth of
/// a second) in micro-units.
pub const DT_FACTOR: i64 = 10_000;

/// Largest coordinate magnitude the model admits, in micro-units.
pub const POS_LIMIT: i64 = 1_000_000_000_000_000;

/// Largest velocity magnitude the model admits, in world units per second.
pub const VEL_LIMIT: i64 = 10_000_000_000;

/// Largest width or height of a rectangle, in world units.
pub const MAX_EXTENT: u32 = 1_000_000;

/// Arena width: 800 world units, in micro-units.
pub const ARENA_WIDTH: i64 = 800 * SCALE;

/// Arena height: 600 world units, in micro-units.
pub const ARENA_HEIGHT: i64 = 600 * SCALE;

/// Whole world units of a coordinate, truncated toward zero.
pub open spec fn units_of(c: int) -> int {
    if c >= 0 {
        c / (SCALE as int)
    } else {
        -((-c) / (SCALE as int))
    }
}

/// The boundary equality test: two coordinates are approximately equal when
/// they differ by less than `EPSILON` micro-units.
pub open spec fn spec_approx_equal(a: int, b: int) -> bool {
    -(EPSILON as int) < a - b < EPSILON as int
}

/// Epsilon-tolerant coordinate equality, used by the paddle boundary tests.
pub fn approx_equal(a: i64, b: i64) -> (r: bool)
    requires
        -4 * POS_LIMIT <= a <= 4 * POS_LIMIT,
        -4 * POS_LIMIT <= b <= 4 * POS_LIMIT,
    ensures
        r == spec_approx_equal(a as int, b as int),
{
    let p = EPSILON;
    let diff = if a >= b {
        a - b
    } else {
        b - a
    };
    if diff < p {
        true
    } else {
        false
    }
}

/// Truncation of a micro-unit coordinate to whole world units, toward zero.
pub fn to_units(c: i64) -> (r: i32)
    requires
        -2 * POS_LIMIT <= c <= 2 * POS_LIMIT,
    ensures
        r == units_of(c as int),
{
    let q = c.checked_div(SCALE).unwrap();
    q as i32
}

/// Truncation toward zero is monotone.
pub proof fn lemma_units_monotone(a: int, b: int)
    requires
        a <= b,
    ensures
        units_of(a) <= units_of(b),
{
    if a >= 0 {
        vstd::arithmetic::div_mod::lemma_div_is_ordered(a, b, SCALE as int);
    } else if b < 0 {
        vstd::arithmetic::div_mod::lemma_div_is_ordered(-b, -a, SCALE as int);
    } else {
        vstd::arithmetic::div_mod::lemma_div_pos_is_pos(-a, SCALE as int);
        vstd::arithmetic::div_mod::lemma_div_pos_is_pos(b, SCALE as int);
    }
}

/// An axis-aligned rectangle: position in micro-units, extent in whole
/// world units.
pub struct Rectangle {
    pub x: i64,
    pub y: i64,
    pub width: u32,
    pub height: u32,
}

impl Rectangle {
    /// Both coordinates are in the model's range and the extent is bounded.
    pub open spec fn wf(&self) -> bool {
        &&& -POS_LIMIT <= self.x <= POS_LIMIT
        &&& -POS_LIMIT <= self.y <= POS_LIMIT
        &&& self.width <= MAX_EXTENT
        &&& self.height <= MAX_EXTENT
    }

    /// The right edge, in micro-units.
    pub open spec fn spec_right_x(&self) -> int {
        self.x + self.width * (SCALE as int)
    }

    /// The bottom edge, in micro-units.
    pub open spec fn spec_bottom_y(&self) -> int {
        self.y + self.height * (SCALE as int)
    }

    /// Coordinate of the right edge: position plus width.
    pub fn right_x(&self) -> (r: i64)
        requires
            self.wf(),
        ensures
            r == self.spec_right_x(),
    {
        self.x + (self.width as i64) * SCALE
    }

    /// Coordinate of the bottom edge: position plus height.
    pub fn bottom_y(&self) -> (r: i64)
        requires
            self.wf(),
        ensures
            r == self.spec_bottom_y(),
    {
        self.y + (self.height as i64) * SCALE
    }
}

} // verus!
