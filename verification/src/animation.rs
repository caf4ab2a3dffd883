//! Which frame of a sprite sheet shows a player. Nothing here feeds back into
//! the simulation.

use crate::components::{DistanceTraveled, MoveDir};
use vstd::prelude::*;

verus! {

/// The sheet has one row of this many frames for each octant.
pub const FRAMES_PER_ROW: usize = 6;

/// A player's animation goes on by one frame each time it has gone this far:
/// a quarter of a world unit.
pub const WAY_PER_FRAME: u64 = 250_000;

/// The number of frames in the row of `octant` that are drawn.
pub open spec fn animation_length(octant: int) -> int {
    if octant == 2 || octant == 5 || octant == 6 {
        4
    } else {
        5
    }
}

/// The index in the sheet of the frame that shows a player who faces along
/// `facing` and has gone `distance`.
pub open spec fn sprite_index_of(facing: MoveDir, distance: DistanceTraveled) -> int {
    let octant = facing.octant_of();
    octant * FRAMES_PER_ROW + ((distance.0 / WAY_PER_FRAME) as int) % animation_length(octant)
}

/// Picks the frame of the sheet for a player.
pub fn sprite_index(facing: &MoveDir, distance: &DistanceTraveled) -> (index: usize)
    requires
        facing.wf(),
    ensures
        index == sprite_index_of(*facing, *distance),
        index < 8 * FRAMES_PER_ROW,
{
    let octant: usize = facing.octant();
    let length: u64 = if octant == 2 || octant == 5 || octant == 6 {
        4
    } else {
        5
    };
    let frame: u64 = (distance.0 / WAY_PER_FRAME) % length;
    octant * FRAMES_PER_ROW + frame as usize
}

} // verus!
