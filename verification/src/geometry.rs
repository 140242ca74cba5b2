//! Integer screen coordinates.
//!
//! Touch positions arrive from the compositor in physical pixels; the caller
//! rounds them to integers before handing them to this crate. Coordinates are
//! clamped to `MAX_COORD` so that squared distances never overflow `i64`.

use vstd::prelude::*;

verus! {

/// Largest coordinate magnitude the crate works with, in pixels.
///
/// Two coordinates in `[-MAX_COORD, MAX_COORD]` have a difference of at most
/// `2^30`, so the sum of two squared differences stays below `2^61`.
pub const MAX_COORD: i64 = 536870911;

/// Smallest coordinate the crate works with; the negation of [`MAX_COORD`].
pub const MIN_COORD: i64 = -536870911;

/// A point on the screen, in pixels.
#[derive(Clone, Copy, Debug, PartialEq, Eq, Structural)]
pub struct Position {
    pub x: i64,
    pub y: i64,
}

/// True when both coordinates lie within `[-MAX_COORD, MAX_COORD]`.
pub open spec fn position_in_range(p: Position) -> bool {
    MIN_COORD <= p.x <= MAX_COORD && MIN_COORD <= p.y <= MAX_COORD
}

/// Clamps a value into `[-MAX_COORD, MAX_COORD]`.
pub fn clamp_coord(v: i64) -> (r: i64)
    ensures
        r == spec_clamp_coord(v),
{
    if v < MIN_COORD {
        MIN_COORD
    } else if v > MAX_COORD {
        MAX_COORD
    } else {
        v
    }
}

/// Specification of [`clamp_coord`].
pub open spec fn spec_clamp_coord(v: i64) -> i64 {
    if v < MIN_COORD {
        MIN_COORD
    } else if v > MAX_COORD {
        MAX_COORD
    } else {
        v
    }
}

impl Position {
    /// Builds a position, clamping both coordinates into range.
    pub fn new(x: i64, y: i64) -> (r: Position)
        ensures
            r.x == spec_clamp_coord(x),
            r.y == spec_clamp_coord(y),
            position_in_range(r),
    {
        Position { x: clamp_coord(x), y: clamp_coord(y) }
    }

    /// Squared euclidean distance to another position.
    pub fn distance_squared(&self, other: &Position) -> (r: i64)
        requires
            position_in_range(*self),
            position_in_range(*other),
        ensures
            r == spec_distance_squared(*self, *other),
            r >= 0,
    {
        let dx: i64 = self.x - other.x;
        let dy: i64 = self.y - other.y;
        proof {
            assert(0 <= dx * dx <= 1152921504606846976) by (nonlinear_arith)
                requires
                    -1073741822 <= dx <= 1073741822,
            ;
            assert(0 <= dy * dy <= 1152921504606846976) by (nonlinear_arith)
                requires
                    -1073741822 <= dy <= 1073741822,
            ;
        }
        dx * dx + dy * dy
    }
}

/// Specification of [`Position::distance_squared`].
pub open spec fn spec_distance_squared(a: Position, b: Position) -> int {
    (a.x - b.x) * (a.x - b.x) + (a.y - b.y) * (a.y - b.y)
}

} // verus!
