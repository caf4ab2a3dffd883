//! Fixed-point plane geometry: lengths are integers, one step is a millionth
//! of a world unit.

use vstd::prelude::*;

verus! {

/// Steps in one world unit.
pub const UNIT: i64 = 1_000_000;

/// The arena is a square of this many world units, centred on the origin.
pub const MAP_SIZE: i64 = 41;

/// Distance from the origin to each arena edge.
pub const MAP_LIMIT: i64 = 20_500_000;

/// Radius of a player's circle.
pub const PLAYER_RADIUS: i64 = 500_000;

/// Radius of a projectile.
pub const BULLET_RADIUS: i64 = 25_000;

/// Sum of the two radii: a projectile whose centre is closer than this to a
/// player's centre kills the player.
pub const LETHAL_RANGE: i64 = PLAYER_RADIUS + BULLET_RADIUS;

/// A moving player is clamped to this distance from the origin on each axis:
/// one radius short of the arena edge.
pub const PLAYER_LIMIT: i64 = MAP_LIMIT - PLAYER_RADIUS;

/// No player coordinate ever leaves this bound: a wall that touches the arena
/// edge can push a player one radius past the edge.
pub const PLAYER_BOUND: i64 = MAP_LIMIT + PLAYER_RADIUS;

/// Bound on a projectile coordinate between its spawn and the bounds check of
/// the same frame.
pub const FLIGHT_BOUND: i64 = 100_000_000_000;

/// The share of a diagonal unit vector on each axis, in millionths:
/// the square root of one half, rounded to the nearest step.
pub const DIAGONAL: i64 = 707_107;

/// A point or a displacement in the plane.
#[derive(Clone, Copy, Debug, PartialEq, Eq, Structural)]
pub struct Vec2 {
    pub x: i64,
    pub y: i64,
}

/// The magnitude of `v`.
pub open spec fn abs(v: int) -> int {
    if v < 0 {
        -v
    } else {
        v
    }
}

/// `n / d` rounded toward zero, for a positive `d`.
pub open spec fn div_toward_zero(n: int, d: int) -> int {
    if n >= 0 {
        n / d
    } else {
        -((-n) / d)
    }
}

/// The length `len` scaled by `part` millionths and rounded toward zero: one
/// coordinate of a displacement of length `len` along a direction whose share
/// on that axis is `part`.
pub open spec fn scale(part: int, len: int) -> int {
    div_toward_zero(part * len, UNIT as int)
}

/// `v` held to the closed interval from `-limit` to `limit`.
pub open spec fn clamp(v: int, limit: int) -> int {
    if v < -limit {
        -limit
    } else if v > limit {
        limit
    } else {
        v
    }
}

impl Vec2 {
    /// Both coordinates lie within `bound` of the origin.
    pub open spec fn within(self, bound: int) -> bool {
        abs(self.x as int) <= bound && abs(self.y as int) <= bound
    }

    /// Both coordinates lie strictly inside the arena.
    pub open spec fn inside_arena(self) -> bool {
        abs(self.x as int) < MAP_LIMIT && abs(self.y as int) < MAP_LIMIT
    }

    /// The squared Euclidean distance between two points.
    pub open spec fn dist2(self, other: Vec2) -> int {
        (self.x - other.x) * (self.x - other.x) + (self.y - other.y) * (self.y - other.y)
    }

    /// The point with the coordinates `x` and `y`.
    pub fn new(x: i64, y: i64) -> (v: Vec2)
        ensures
            v == (Vec2 { x, y }),
    {
        Vec2 { x, y }
    }

    /// Whether both coordinates lie within `bound` of the origin.
    pub fn is_within(&self, bound: i64) -> (b: bool)
        requires
            bound >= 0,
        ensures
            b == self.within(bound as int),
    {
        -bound <= self.x && self.x <= bound && -bound <= self.y && self.y <= bound
    }
}

/// Computes [`scale`] for a share of at most one unit and a length that is
/// not negative.
pub fn scaled(part: i64, len: i64) -> (r: i64)
    requires
        -UNIT <= part <= UNIT,
        0 <= len <= FLIGHT_BOUND,
    ensures
        r == scale(part as int, len as int),
        abs(r as int) <= len,
{
    let size: i64 = if part < 0 {
        -part
    } else {
        part
    };
    assert(0 <= size * len <= UNIT * len) by (nonlinear_arith)
        requires
            0 <= size <= UNIT,
            0 <= len,
    ;
    let product: i64 = size * len;
    let quotient: i64 = product / UNIT;
    assert(part * len == if part < 0 {
        -(size * len)
    } else {
        size * len
    }) by (nonlinear_arith)
        requires
            size == if part < 0 {
                -part
            } else {
                part as int
            },
    ;
    if part < 0 {
        -quotient
    } else {
        quotient
    }
}

/// Computes [`clamp`].
pub fn clamped(v: i64, limit: i64) -> (r: i64)
    requires
        limit >= 0,
    ensures
        r == clamp(v as int, limit as int),
{
    if v < -limit {
        -limit
    } else if v > limit {
        limit
    } else {
        v
    }
}

/// The magnitude of `v`.
pub fn magnitude(v: i64) -> (m: i64)
    requires
        v > i64::MIN,
    ensures
        m == abs(v as int),
{
    if v < 0 {
        -v
    } else {
        v
    }
}

} // verus!
