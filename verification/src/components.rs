//! What the world is made of: players, projectiles and walls.

use crate::geometry::{abs, Vec2, MAP_LIMIT, PLAYER_BOUND};
use crate::input::is_unit;
use vstd::prelude::*;

verus! {

/// The direction in which something faces or travels: one of the eight unit
/// vectors that an input can ask for.
#[derive(Clone, Copy, Debug, PartialEq, Eq, Structural)]
pub struct MoveDir(pub Vec2);

/// The fire latch of a player: a shot closes it, releasing fire opens it.
#[derive(Clone, Copy, Debug, PartialEq, Eq, Structural)]
pub struct BulletReady(pub bool);

/// The length of the way a player has gone, for animation only. It stops
/// growing at the largest value it can hold.
#[derive(Clone, Copy, Debug, PartialEq, Eq, Structural)]
pub struct DistanceTraveled(pub u64);

/// A player. `handle` is the input slot that drives it, 0 or 1.
#[derive(Clone, Copy, Debug, PartialEq, Eq, Structural)]
pub struct Player {
    pub handle: usize,
    pub position: Vec2,
    pub facing: MoveDir,
    pub distance: DistanceTraveled,
    pub bullet_ready: BulletReady,
}

/// A projectile. Its direction is fixed when it is fired.
#[derive(Clone, Copy, Debug, PartialEq, Eq, Structural)]
pub struct Bullet {
    pub position: Vec2,
    pub direction: MoveDir,
}

/// An axis-aligned rectangular obstacle, given by its centre and half its size.
#[derive(Clone, Copy, Debug, PartialEq, Eq, Structural)]
pub struct Wall {
    pub position: Vec2,
    pub half_extents: Vec2,
}

impl Default for DistanceTraveled {
    /// No way gone.
    fn default() -> (distance: DistanceTraveled)
        ensures
            distance == DistanceTraveled(0),
    {
        DistanceTraveled(0)
    }
}

impl MoveDir {
    /// The vector is one of the eight unit vectors.
    pub open spec fn wf(self) -> bool {
        is_unit(self.0)
    }

    /// The index of the 45 degree sector that a unit vector points into,
    /// counted counter-clockwise from 0 for `+x`.
    pub open spec fn octant_of(self) -> int {
        let v = self.0;
        if v.y == 0 {
            if v.x > 0 {
                0
            } else {
                4
            }
        } else if v.y > 0 {
            if v.x > 0 {
                1
            } else if v.x == 0 {
                2
            } else {
                3
            }
        } else {
            if v.x < 0 {
                5
            } else if v.x == 0 {
                6
            } else {
                7
            }
        }
    }

    /// The direction that a fresh player faces: `-x`.
    pub open spec fn initial() -> MoveDir {
        MoveDir(Vec2 { x: -1_000_000i64, y: 0 })
    }

    /// Gets the index of the octant (45 degree sectors), starting from 0
    /// (right) and going counter-clockwise.
    pub fn octant(&self) -> (index: usize)
        requires
            self.wf(),
        ensures
            index == self.octant_of(),
            index < 8,
    {
        let x: i64 = self.0.x;
        let y: i64 = self.0.y;
        if y == 0 {
            if x > 0 {
                0
            } else {
                4
            }
        } else if y > 0 {
            if x > 0 {
                1
            } else if x == 0 {
                2
            } else {
                3
            }
        } else {
            if x < 0 {
                5
            } else if x == 0 {
                6
            } else {
                7
            }
        }
    }

    /// Whether the vector is one of the eight unit vectors.
    pub fn is_wf(&self) -> (b: bool)
        ensures
            b == self.wf(),
    {
        let x: i64 = self.0.x;
        let y: i64 = self.0.y;
        ((x == 1_000_000 || x == -1_000_000) && y == 0) || (x == 0 && (y == 1_000_000 || y
            == -1_000_000)) || ((x == 707_107 || x == -707_107) && (y == 707_107 || y == -707_107))
    }
}

impl Player {
    /// The player sits in slot `slot`, within the bound that no player leaves,
    /// and faces along a unit vector.
    pub open spec fn wf(self, slot: int) -> bool {
        &&& self.handle == slot
        &&& self.position.within(PLAYER_BOUND as int)
        &&& self.facing.wf()
    }

    /// A player as a round starts with it: facing `-x`, latch open, no way gone.
    pub open spec fn fresh(handle: usize, position: Vec2) -> Player {
        Player {
            handle,
            position,
            facing: MoveDir::initial(),
            distance: DistanceTraveled(0),
            bullet_ready: BulletReady(true),
        }
    }

    /// Makes [`Player::fresh`].
    pub fn spawn(handle: usize, position: Vec2) -> (p: Player)
        ensures
            p == Player::fresh(handle, position),
    {
        Player {
            handle,
            position,
            facing: MoveDir(Vec2 { x: -1_000_000, y: 0 }),
            distance: DistanceTraveled(0),
            bullet_ready: BulletReady(true),
        }
    }

    /// Whether [`Player::wf`] holds for slot `slot`.
    pub fn is_wf(&self, slot: usize) -> (b: bool)
        ensures
            b == self.wf(slot as int),
    {
        self.handle == slot && self.position.is_within(PLAYER_BOUND) && self.facing.is_wf()
    }
}

impl Bullet {
    /// The projectile lies within `bound` of the origin on both axes and
    /// travels along a unit vector.
    pub open spec fn wf(self, bound: int) -> bool {
        &&& self.position.within(bound)
        &&& self.direction.wf()
    }

    /// Whether [`Bullet::wf`] holds for `bound`.
    pub fn is_wf(&self, bound: i64) -> (b: bool)
        requires
            bound >= 0,
        ensures
            b == self.wf(bound as int),
    {
        self.position.is_within(bound) && self.direction.is_wf()
    }
}

impl Wall {
    /// The wall has a positive size and lies inside the arena.
    pub open spec fn wf(self) -> bool {
        &&& self.half_extents.x > 0
        &&& self.half_extents.y > 0
        &&& abs(self.position.x as int) + self.half_extents.x <= MAP_LIMIT
        &&& abs(self.position.y as int) + self.half_extents.y <= MAP_LIMIT
    }

    /// Whether [`Wall::wf`] holds.
    pub fn is_wf(&self) -> (b: bool)
        ensures
            b == self.wf(),
    {
        let hx: i64 = self.half_extents.x;
        let hy: i64 = self.half_extents.y;
        let px: i64 = self.position.x;
        let py: i64 = self.position.y;
        0 < hx && hx <= MAP_LIMIT && 0 < hy && hy <= MAP_LIMIT && hx - MAP_LIMIT <= px && px
            <= MAP_LIMIT - hx && hy - MAP_LIMIT <= py && py <= MAP_LIMIT - hy
    }
}

} // verus!
