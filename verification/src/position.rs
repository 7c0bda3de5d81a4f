//! Points of the screen.

use vstd::prelude::*;
use vstd::std_specs::convert::FromSpecImpl;

verus! {

/// A point of the screen, or the difference of two.
#[derive(Clone, Copy, Debug, PartialEq, Eq, Structural)]
pub struct Position {
    pub x: i32,
    pub y: i32,
}

/// The square of the distance between two points.
pub open spec fn distance_squared(a: Position, b: Position) -> int {
    (a.x - b.x) * (a.x - b.x) + (a.y - b.y) * (a.y - b.y)
}

/// `value` brought into the range from `low` to `high`.
pub open spec fn clamped(value: int, low: int, high: int) -> int {
    if value < low {
        low
    } else if value > high {
        high
    } else {
        value
    }
}

impl Position {
    pub fn new(x: i32, y: i32) -> (position: Self)
        ensures
            position.x == x,
            position.y == y,
    {
        Position { x, y }
    }

    /// The distance between two points, rounded down to a whole number and
    /// held at `u32::MAX` where it would not fit.
    pub fn distance(position1: &Position, position2: &Position) -> (distance: u32)
        ensures
            distance * distance <= distance_squared(*position1, *position2),
            distance < u32::MAX ==> distance_squared(*position1, *position2) < (distance + 1) * (
            distance + 1),
    {
        let dx: i64 = position1.x as i64 - position2.x as i64;
        let dy: i64 = position1.y as i64 - position2.y as i64;
        let ax: u64 = if dx < 0 {
            (-dx) as u64
        } else {
            dx as u64
        };
        let ay: u64 = if dy < 0 {
            (-dy) as u64
        } else {
            dy as u64
        };
        assert(ax * ax == dx * dx && ay * ay == dy * dy) by (nonlinear_arith)
            requires
                ax == dx || ax == -dx,
                ay == dy || ay == -dy,
        ;
        assert(ax * ax <= 0xFFFF_FFFF * 0xFFFF_FFFF && ay * ay <= 0xFFFF_FFFF * 0xFFFF_FFFF)
            by (nonlinear_arith)
            requires
                ax <= 0xFFFF_FFFF,
                ay <= 0xFFFF_FFFF,
        ;
        let square: u128 = (ax * ax) as u128 + (ay * ay) as u128;
        let limit: u128 = 0xFFFF_FFFF * 0xFFFF_FFFF;
        if square >= limit {
            return u32::MAX;
        }
        let mut low: u64 = 0;
        let mut high: u64 = 0xFFFF_FFFF;
        while high - low > 1
            invariant
                low < high <= 0xFFFF_FFFF,
                low * low <= square < high * high,
            decreases high - low,
        {
            let middle: u64 = low + (high - low) / 2;
            assert(middle * middle <= 0xFFFF_FFFF * 0xFFFF_FFFF) by (nonlinear_arith)
                requires
                    middle <= 0xFFFF_FFFF,
            ;
            if (middle * middle) as u128 <= square {
                low = middle;
            } else {
                high = middle;
            }
        }
        low as u32
    }

    /// This point brought into the rectangle from `min` to `max`, side by
    /// side.
    pub fn clamp(&self, min: &Position, max: &Position) -> (position: Self)
        requires
            min.x <= max.x,
            min.y <= max.y,
        ensures
            position.x == clamped(self.x as int, min.x as int, max.x as int),
            position.y == clamped(self.y as int, min.y as int, max.y as int),
    {
        Position::new(clamp_side(self.x, min.x, max.x), clamp_side(self.y, min.y, max.y))
    }

    /// The sum of two points, side by side.
    pub fn plus(&self, other: &Position) -> (sum: Self)
        requires
            i32::MIN <= self.x + other.x <= i32::MAX,
            i32::MIN <= self.y + other.y <= i32::MAX,
        ensures
            sum.x == self.x + other.x,
            sum.y == self.y + other.y,
    {
        Position::new(self.x + other.x, self.y + other.y)
    }

    /// The difference of two points, side by side.
    pub fn minus(&self, other: &Position) -> (difference: Self)
        requires
            i32::MIN <= self.x - other.x <= i32::MAX,
            i32::MIN <= self.y - other.y <= i32::MAX,
        ensures
            difference.x == self.x - other.x,
            difference.y == self.y - other.y,
    {
        Position::new(self.x - other.x, self.y - other.y)
    }
}

fn clamp_side(value: i32, low: i32, high: i32) -> (side: i32)
    requires
        low <= high,
    ensures
        side == clamped(value as int, low as int, high as int),
{
    if value < low {
        low
    } else if value > high {
        high
    } else {
        value
    }
}

impl From<(i32, i32)> for Position {
    fn from(value: (i32, i32)) -> (position: Self) {
        Position::new(value.0, value.1)
    }
}

impl FromSpecImpl<(i32, i32)> for Position {
    open spec fn obeys_from_spec() -> bool {
        true
    }

    open spec fn from_spec(value: (i32, i32)) -> Self {
        Position { x: value.0, y: value.1 }
    }
}

} // verus!
