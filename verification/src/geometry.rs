//! Plain 2D geometry in fixed-point numbers.
//!
//! The overlay measures in logical units and places the pointer between
//! them. Positions and lengths on the overlay are therefore counted in steps,
//! [`STEPS_PER_UNIT`] of which make one logical unit.

use vstd::prelude::*;

verus! {

/// A position on the overlay, in steps.
#[derive(Clone, Copy, Debug, PartialEq, Eq, Structural)]
pub struct Point {
    pub x: i32,
    pub y: i32,
}

/// The extent of a surface: the overlay in steps, or an image in pixels.
#[derive(Clone, Copy, Debug, PartialEq, Eq, Structural)]
pub struct Size {
    pub width: u32,
    pub height: u32,
}

/// An axis-aligned rectangle on the overlay, given by two corners.
#[derive(Clone, Copy, Debug, PartialEq, Eq, Structural)]
pub struct Rect {
    pub min: Point,
    pub max: Point,
}

/// A rectangle of image pixels: top-left corner and extent.
#[derive(Clone, Copy, Debug, PartialEq, Eq, Structural)]
pub struct PixelRect {
    pub x: u32,
    pub y: u32,
    pub width: u32,
    pub height: u32,
}

/// The number of steps that make one logical unit of the overlay.
pub const STEPS_PER_UNIT: u32 = 64;

/// A drag counts as a selection only if its ends are farther apart than this
/// many logical units.
pub const MIN_SELECTION_DISTANCE: u32 = 10;

/// A number of whole logical units, in steps.
pub open spec fn steps(units: int) -> int {
    units * STEPS_PER_UNIT
}

/// The square of the Euclidean distance between two points, in steps.
pub open spec fn distance_squared(a: Point, b: Point) -> int {
    (b.x - a.x) * (b.x - a.x) + (b.y - a.y) * (b.y - a.y)
}

/// Whether two points are farther apart than the selection threshold.
pub open spec fn exceeds_threshold(a: Point, b: Point) -> bool {
    distance_squared(a, b) > steps(MIN_SELECTION_DISTANCE as int) * steps(
        MIN_SELECTION_DISTANCE as int,
    )
}

impl Rect {
    /// The horizontal extent, negative when the corners are swapped.
    pub open spec fn spec_width(self) -> int {
        self.max.x - self.min.x
    }

    /// The vertical extent, negative when the corners are swapped.
    pub open spec fn spec_height(self) -> int {
        self.max.y - self.min.y
    }

    /// Whether `min` is the top-left and `max` the bottom-right corner.
    pub open spec fn is_normalized(self) -> bool {
        self.min.x <= self.max.x && self.min.y <= self.max.y
    }

    /// Whether the point lies within the rectangle, edges included.
    pub open spec fn contains(self, p: Point) -> bool {
        self.min.x <= p.x <= self.max.x && self.min.y <= p.y <= self.max.y
    }

    pub fn width(&self) -> (w: i64)
        ensures
            w == self.spec_width(),
    {
        self.max.x as i64 - self.min.x as i64
    }

    pub fn height(&self) -> (h: i64)
        ensures
            h == self.spec_height(),
    {
        self.max.y as i64 - self.min.y as i64
    }
}

/// Decides whether a drag from `start` to `end` is an intended selection
/// rather than an accidental click.
pub fn is_valid_selection(start: Point, end: Point) -> (valid: bool)
    ensures
        valid == exceeds_threshold(start, end),
{
    let dx: i64 = end.x as i64 - start.x as i64;
    let dy: i64 = end.y as i64 - start.y as i64;
    let limit: i64 = (MIN_SELECTION_DISTANCE * STEPS_PER_UNIT) as i64;
    assert(limit == steps(MIN_SELECTION_DISTANCE as int) && limit == 640);
    if dx > limit || dx < -limit || dy > limit || dy < -limit {
        assert(dx * dx + dy * dy > 640 * 640) by (nonlinear_arith)
            requires
                dx > 640 || dx < -640 || dy > 640 || dy < -640,
        ;
        true
    } else {
        assert(0 <= dx * dx <= 640 * 640 && 0 <= dy * dy <= 640 * 640) by (nonlinear_arith)
            requires
                -640 <= dx <= 640,
                -640 <= dy <= 640,
        ;
        dx * dx + dy * dy > limit * limit
    }
}

/// The rectangle spanned by two opposite corners.
pub open spec fn spanning(a: Point, b: Point) -> Rect {
    Rect {
        min: Point { x: if a.x <= b.x { a.x } else { b.x }, y: if a.y <= b.y { a.y } else { b.y } },
        max: Point { x: if a.x >= b.x { a.x } else { b.x }, y: if a.y >= b.y { a.y } else { b.y } },
    }
}

/// The rectangle spanned by two opposite corners, whichever way the user
/// dragged: its `min` is the top-left corner and its `max` the bottom-right.
pub fn normalize_selection(start: Point, end: Point) -> (r: Rect)
    ensures
        r == spanning(start, end),
        r == spanning(end, start),
        r.is_normalized(),
        r.contains(start),
        r.contains(end),
{
    Rect {
        min: Point {
            x: if start.x <= end.x { start.x } else { end.x },
            y: if start.y <= end.y { start.y } else { end.y },
        },
        max: Point {
            x: if start.x >= end.x { start.x } else { end.x },
            y: if start.y >= end.y { start.y } else { end.y },
        },
    }
}

} // verus!
