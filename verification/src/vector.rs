//! Fixed-point points and vectors of the movement plane.

use vstd::prelude::*;

verus! {

/// Number of fixed-point steps in one world unit, for points and lengths.
pub const UNIT: i64 = 1_000_000;

/// Number of microseconds in one second.
pub const MICROS_PER_SECOND: u32 = 1_000_000;

/// Component of a unit axis of a `Direction`. Directions are counted on a
/// finer scale than points, in billionths, so that a diagonal comes within
/// a billionth of unit length.
pub const DIRECTION_UNIT: i32 = 1_000_000_000;

/// Component of a diagonal unit `Direction`: the largest integer `d` with
/// `2 * d * d <= DIRECTION_UNIT * DIRECTION_UNIT`.
pub const DIAGONAL: i32 = 707_106_781;

/// A point of the three-dimensional scene.
#[derive(Clone, Copy, Debug, PartialEq, Eq, Structural)]
pub struct Position {
    pub x: i64,
    pub y: i64,
    pub z: i64,
}

/// A point of the movement plane.
#[derive(Clone, Copy, Debug, PartialEq, Eq, Structural)]
pub struct Planar {
    pub x: i64,
    pub y: i64,
}

/// The difference of two points of the movement plane. Only its direction
/// matters where it is used as a heading.
#[derive(Clone, Copy, Debug, PartialEq, Eq, Structural)]
pub struct Offset {
    pub x: i128,
    pub y: i128,
}

/// A movement direction: a vector of at most unit length, counted so that a
/// unit axis has a component of `DIRECTION_UNIT`.
#[derive(Clone, Copy, Debug, PartialEq, Eq, Structural)]
pub struct Direction {
    pub x: i32,
    pub y: i32,
}

/// The vector that leads from `from` to `to`.
pub open spec fn offset_between(from: Planar, to: Planar) -> Offset {
    Offset { x: (to.x - from.x) as i128, y: (to.y - from.y) as i128 }
}

/// Squared Euclidean distance between two points of the movement plane.
pub open spec fn distance_squared(a: Planar, b: Planar) -> int {
    (a.x - b.x) * (a.x - b.x) + (a.y - b.y) * (a.y - b.y)
}

/// Whether the Euclidean distance between `a` and `b` is below `radius`.
pub open spec fn closer_than(a: Planar, b: Planar, radius: u32) -> bool {
    distance_squared(a, b) < radius * radius
}

impl Position {
    /// Projection onto the movement plane: the vertical axis is dropped.
    pub open spec fn planar(self) -> Planar {
        Planar { x: self.x, y: self.y }
    }

    /// The point with the given coordinates.
    pub fn new(x: i64, y: i64, z: i64) -> (result: Self)
        ensures
            result == (Position { x, y, z }),
    {
        Position { x, y, z }
    }

    /// The point with all coordinates zero.
    pub fn origin() -> (result: Self)
        ensures
            result == (Position { x: 0, y: 0, z: 0 }),
    {
        Position { x: 0, y: 0, z: 0 }
    }

    /// Drops the vertical axis.
    pub fn xy(&self) -> (result: Planar)
        ensures
            result == self.planar(),
    {
        Planar { x: self.x, y: self.y }
    }
}

impl Planar {
    /// The point with the given coordinates.
    pub fn new(x: i64, y: i64) -> (result: Self)
        ensures
            result == (Planar { x, y }),
    {
        Planar { x, y }
    }

    /// The vector that leads from `self` to `to`.
    pub fn offset_to(&self, to: Planar) -> (result: Offset)
        ensures
            result == offset_between(*self, to),
            result.x == to.x - self.x,
            result.y == to.y - self.y,
    {
        let x: i128 = to.x as i128 - self.x as i128;
        let y: i128 = to.y as i128 - self.y as i128;
        Offset { x, y }
    }

    /// Whether the Euclidean distance to `other` is below `radius`.
    pub fn is_closer_than(&self, other: Planar, radius: u32) -> (result: bool)
        ensures
            result == closer_than(*self, other, radius),
    {
        let dx: i128 = self.x as i128 - other.x as i128;
        let dy: i128 = self.y as i128 - other.y as i128;
        let reach: i128 = radius as i128;
        if dx > reach || dx < -reach || dy > reach || dy < -reach {
            proof {
                if dx > reach || dx < -reach {
                    lemma_beyond_reach(dx as int, dy as int, reach as int);
                } else {
                    lemma_beyond_reach(dy as int, dx as int, reach as int);
                }
            }
            return false;
        }
        proof {
            lemma_bounded_square(dx as int, reach as int);
            lemma_bounded_square(dy as int, reach as int);
            lemma_bounded_square(reach as int, 0x1_0000_0000);
        }
        dx * dx + dy * dy < reach * reach
    }
}

/// A vector with a component beyond `reach` is not shorter than `reach`.
pub proof fn lemma_beyond_reach(far: int, other: int, reach: int)
    by (nonlinear_arith)
    requires
        0 <= reach,
        far > reach || far < -reach,
    ensures
        far * far + other * other >= reach * reach,
        other * other + far * far >= reach * reach,
{
}

/// The square of a value between `-bound` and `bound` is at most the
/// square of `bound`.
pub proof fn lemma_bounded_square(value: int, bound: int)
    by (nonlinear_arith)
    requires
        -bound <= value <= bound,
    ensures
        0 <= value * value <= bound * bound,
{
}

impl Offset {
    /// The offset turned by a quarter turn counter-clockwise, which adds a
    /// right angle to the angle it makes with the first axis.
    pub open spec fn quarter_turned(self) -> Offset {
        Offset { x: (-self.y) as i128, y: self.x }
    }

    /// Turns the offset by a quarter turn counter-clockwise.
    pub fn quarter_turn(&self) -> (result: Offset)
        requires
            self.y > i128::MIN,
        ensures
            result == self.quarter_turned(),
            result.x == -self.y,
            result.y == self.x,
    {
        Offset { x: -self.y, y: self.x }
    }
}

impl Direction {
    /// Squared length, in squared billionths.
    pub open spec fn length_squared(self) -> int {
        self.x * self.x + self.y * self.y
    }

    /// Whether the vector is no longer than one world unit.
    pub open spec fn at_most_unit(self) -> bool {
        self.length_squared() <= DIRECTION_UNIT * DIRECTION_UNIT
    }

    /// Whether the vector is the zero vector.
    pub open spec fn is_zero(self) -> bool {
        self.x == 0 && self.y == 0
    }

    /// Whether the length is one world unit to within a billionth: not
    /// above it, and less than one billionth below.
    pub open spec fn is_unit(self) -> bool {
        (DIRECTION_UNIT - 1) * (DIRECTION_UNIT - 1) <= self.length_squared() <= DIRECTION_UNIT
            * DIRECTION_UNIT
    }

    /// The zero vector: no movement.
    pub fn zero() -> (result: Self)
        ensures
            result == (Direction { x: 0, y: 0 }),
            result.is_zero(),
            result.at_most_unit(),
    {
        Direction { x: 0, y: 0 }
    }

    /// Squared length, in squared billionths.
    pub fn squared_length(&self) -> (result: u128)
        ensures
            result == self.length_squared(),
    {
        let x: i128 = self.x as i128;
        let y: i128 = self.y as i128;
        proof {
            lemma_bounded_square(x as int, 0x8000_0000);
            lemma_bounded_square(y as int, 0x8000_0000);
        }
        let sum: i128 = x * x + y * y;
        sum as u128
    }

    /// Tests whether the vector is no longer than one world unit.
    pub fn is_at_most_unit(&self) -> (result: bool)
        ensures
            result == self.at_most_unit(),
    {
        self.squared_length() <= 1_000_000_000_000_000_000u128
    }
}

/// The squares that the lengths of directions are measured against.
/// `DIAGONAL` is the component of the longest diagonal vector that fits
/// within unit length: doubling its square stays within the square of
/// `DIRECTION_UNIT`, and the next integer does not.
pub proof fn lemma_direction_squares()
    ensures
        DIRECTION_UNIT * DIRECTION_UNIT == 1_000_000_000_000_000_000int,
        (DIRECTION_UNIT - 1) * (DIRECTION_UNIT - 1) == 999_999_998_000_000_001int,
        DIAGONAL * DIAGONAL == 499_999_999_736_181_961int,
        2 * (DIAGONAL * DIAGONAL) <= DIRECTION_UNIT * DIRECTION_UNIT,
        2 * ((DIAGONAL + 1) * (DIAGONAL + 1)) > DIRECTION_UNIT * DIRECTION_UNIT,
{
    assert(DIRECTION_UNIT * DIRECTION_UNIT == 1_000_000_000_000_000_000int) by (nonlinear_arith);
    assert((DIRECTION_UNIT - 1) * (DIRECTION_UNIT - 1) == 999_999_998_000_000_001int)
        by (nonlinear_arith);
    assert(DIAGONAL * DIAGONAL == 499_999_999_736_181_961int) by (nonlinear_arith);
    assert((DIAGONAL + 1) * (DIAGONAL + 1) == 500_000_001_150_395_524int) by (nonlinear_arith);
}

} // verus!
