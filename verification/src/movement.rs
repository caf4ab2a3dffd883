//! Moving the players and keeping them out of the walls.

use crate::components::{DistanceTraveled, MoveDir, Player, Wall};
use crate::geometry::{
    abs, clamp, clamped, magnitude, scale, scaled, Vec2, PLAYER_BOUND, PLAYER_LIMIT,
    PLAYER_RADIUS,
};
use crate::input::{direction, direction_of};
use crate::state::{walls_wf, SimulationState, StateView};
use vstd::prelude::*;

verus! {

/// The speed of a player, in world units per second.
pub const PLAYER_SPEED: i64 = 6;

/// The length of the way that a moving player goes in `dt` microseconds.
pub open spec fn stride(dt: u32) -> int {
    PLAYER_SPEED * dt
}

/// `a + b`, held at the largest `u64`.
pub open spec fn saturating_sum(a: int, b: int) -> int {
    if a + b > u64::MAX {
        u64::MAX as int
    } else {
        a + b
    }
}

/// Player `p` after `dt` microseconds under `input`. Without a direction it
/// stays as it is. With one it faces that way, goes [`stride`] along it, is
/// held to [`PLAYER_LIMIT`] on each axis, and has gone the stride further
/// whether or not the limit held it.
pub open spec fn moved(p: Player, input: u8, dt: u32) -> Player {
    let d = direction_of(input);
    if d == (Vec2 { x: 0, y: 0 }) {
        p
    } else {
        Player {
            handle: p.handle,
            position: Vec2 {
                x: clamp(p.position.x + scale(d.x as int, stride(dt)), PLAYER_LIMIT as int) as i64,
                y: clamp(p.position.y + scale(d.y as int, stride(dt)), PLAYER_LIMIT as int) as i64,
            },
            facing: MoveDir(d),
            distance: DistanceTraveled(saturating_sum(p.distance.0 as int, stride(dt)) as u64),
            bullet_ready: p.bullet_ready,
        }
    }
}

/// [`moved`] for a slot that may be empty.
pub open spec fn moved_slot(slot: Option<Player>, input: u8, dt: u32) -> Option<Player> {
    match slot {
        Some(p) => Some(moved(p, input, dt)),
        None => None,
    }
}

/// How far a circle of a player's radius at coordinate `pos` is from a wall
/// that spans `half` to each side of `center`, on one axis: positive when
/// they are apart on this axis, else minus the depth of the overlap.
pub open spec fn gap(pos: int, center: int, half: int) -> int {
    abs(pos - center) - half - PLAYER_RADIUS
}

/// The player at `pos` does not overlap `wall`: on some axis they are apart.
pub open spec fn clear_of(pos: Vec2, wall: Wall) -> bool {
    ||| gap(pos.x as int, wall.position.x as int, wall.half_extents.x as int) > 0
    ||| gap(pos.y as int, wall.position.y as int, wall.half_extents.y as int) > 0
}

/// Coordinate `pos` moved away from `center` by the overlap `-g`. A player
/// level with the centre goes to the positive side.
pub open spec fn pushed(pos: int, center: int, g: int) -> int {
    if pos - center >= 0 {
        pos - g
    } else {
        pos + g
    }
}

/// The player at `pos` after `wall` has pushed it out: not at all when it is
/// clear of the wall, else along the axis on which the overlap is less deep,
/// and along `y` when both are as deep.
pub open spec fn pushed_out(pos: Vec2, wall: Wall) -> Vec2 {
    let gx = gap(pos.x as int, wall.position.x as int, wall.half_extents.x as int);
    let gy = gap(pos.y as int, wall.position.y as int, wall.half_extents.y as int);
    if gx > 0 || gy > 0 {
        pos
    } else if gx > gy {
        Vec2 { x: pushed(pos.x as int, wall.position.x as int, gx) as i64, y: pos.y }
    } else {
        Vec2 { x: pos.x, y: pushed(pos.y as int, wall.position.y as int, gy) as i64 }
    }
}

/// [`pushed_out`] as a value, to fold with.
pub open spec fn pusher() -> spec_fn(Vec2, Wall) -> Vec2 {
    |pos: Vec2, wall: Wall| pushed_out(pos, wall)
}

/// The player at `pos` after each wall of `walls` in turn has pushed it out.
/// A later wall sees where the earlier ones have left the player.
pub open spec fn pushed_out_of_all(pos: Vec2, walls: Seq<Wall>) -> Vec2 {
    walls.fold_left(pos, pusher())
}

/// [`pushed_out_of_all`] on the position of a player.
pub open spec fn resolved(p: Player, walls: Seq<Wall>) -> Player {
    Player {
        handle: p.handle,
        position: pushed_out_of_all(p.position, walls),
        facing: p.facing,
        distance: p.distance,
        bullet_ready: p.bullet_ready,
    }
}

/// [`resolved`] for a slot that may be empty.
pub open spec fn resolved_slot(slot: Option<Player>, walls: Seq<Wall>) -> Option<Player> {
    match slot {
        Some(p) => Some(resolved(p, walls)),
        None => None,
    }
}

/// The world after the players have moved.
pub open spec fn players_moved(s: StateView, inputs: [u8; 2], dt: u32) -> StateView {
    StateView {
        player0: moved_slot(s.player0, inputs[0], dt),
        player1: moved_slot(s.player1, inputs[1], dt),
        ..s
    }
}

/// The world after the walls have pushed the players out.
pub open spec fn players_resolved(s: StateView) -> StateView {
    StateView {
        player0: resolved_slot(s.player0, s.walls),
        player1: resolved_slot(s.player1, s.walls),
        ..s
    }
}

/// Moves one player for a frame of `dt` microseconds under `input`.
pub fn move_player(p: Player, input: u8, dt: u32) -> (r: Player)
    requires
        p.position.within(PLAYER_BOUND as int),
    ensures
        r == moved(p, input, dt),
        r.position.within(PLAYER_BOUND as int),
        r.handle == p.handle,
        p.facing.wf() ==> r.facing.wf(),
{
    let d = direction(input);
    if d.x == 0 && d.y == 0 {
        return p;
    }
    let length: i64 = PLAYER_SPEED * (dt as i64);
    let x: i64 = clamped(p.position.x + scaled(d.x, length), PLAYER_LIMIT);
    let y: i64 = clamped(p.position.y + scaled(d.y, length), PLAYER_LIMIT);
    let gone: u64 = if p.distance.0 > u64::MAX - (length as u64) {
        u64::MAX
    } else {
        p.distance.0 + (length as u64)
    };
    Player {
        handle: p.handle,
        position: Vec2 { x, y },
        facing: MoveDir(d),
        distance: DistanceTraveled(gone),
        bullet_ready: p.bullet_ready,
    }
}

/// Pushes a player at `pos` out of one wall.
pub fn resolve_wall(pos: Vec2, wall: &Wall) -> (r: Vec2)
    requires
        pos.within(PLAYER_BOUND as int),
        wall.wf(),
    ensures
        r == pushed_out(pos, *wall),
        r.within(PLAYER_BOUND as int),
{
    let dx: i64 = pos.x - wall.position.x;
    let dy: i64 = pos.y - wall.position.y;
    let gx: i64 = magnitude(dx) - wall.half_extents.x - PLAYER_RADIUS;
    let gy: i64 = magnitude(dy) - wall.half_extents.y - PLAYER_RADIUS;
    if gx > 0 || gy > 0 {
        pos
    } else if gx > gy {
        if dx >= 0 {
            Vec2 { x: pos.x - gx, y: pos.y }
        } else {
            Vec2 { x: pos.x + gx, y: pos.y }
        }
    } else {
        if dy >= 0 {
            Vec2 { x: pos.x, y: pos.y - gy }
        } else {
            Vec2 { x: pos.x, y: pos.y + gy }
        }
    }
}

/// Pushes a player at `pos` out of every wall, one after the other. No wall
/// is skipped: several may hold the player at once.
pub fn resolve_walls(pos: Vec2, walls: &Vec<Wall>) -> (r: Vec2)
    requires
        pos.within(PLAYER_BOUND as int),
        walls_wf(walls@),
    ensures
        r == pushed_out_of_all(pos, walls@),
        r.within(PLAYER_BOUND as int),
{
    let mut at = pos;
    let mut i: usize = 0;
    while i < walls.len()
        invariant
            i <= walls.len(),
            walls_wf(walls@),
            at.within(PLAYER_BOUND as int),
            at == pushed_out_of_all(pos, walls@.take(i as int)),
        decreases walls.len() - i,
    {
        assert(walls@.take(i + 1).drop_last() == walls@.take(i as int));
        at = resolve_wall(at, &walls[i]);
        i = i + 1;
    }
    at
}

/// Moves both players by their inputs: the first stage of a frame.
pub fn move_players(state: &mut SimulationState, inputs: [u8; 2], dt: u32)
    requires
        old(state)@.players_wf(),
    ensures
        final(state)@ == players_moved(old(state)@, inputs, dt),
        final(state)@.players_wf(),
{
    if let Some(p) = state.player0 {
        state.player0 = Some(move_player(p, inputs[0], dt));
    }
    if let Some(p) = state.player1 {
        state.player1 = Some(move_player(p, inputs[1], dt));
    }
}

/// Pushes both players out of the walls: the second stage of a frame.
pub fn resolve_wall_collisions(state: &mut SimulationState)
    requires
        old(state)@.players_wf(),
        walls_wf(old(state)@.walls),
    ensures
        final(state)@ == players_resolved(old(state)@),
        final(state)@.players_wf(),
{
    if let Some(p) = state.player0 {
        let position = resolve_walls(p.position, &state.walls);
        state.player0 = Some(
            Player {
                handle: p.handle,
                position,
                facing: p.facing,
                distance: p.distance,
                bullet_ready: p.bullet_ready,
            },
        );
    }
    if let Some(p) = state.player1 {
        let position = resolve_walls(p.position, &state.walls);
        state.player1 = Some(
            Player {
                handle: p.handle,
                position,
                facing: p.facing,
                distance: p.distance,
                bullet_ready: p.bullet_ready,
            },
        );
    }
}

/// A wall that overlaps the player pushes it along one axis only, the one on
/// which the overlap is less deep, by exactly the depth of that overlap, and
/// leaves it touching the wall.
pub proof fn lemma_push_is_least_and_exact(pos: Vec2, wall: Wall)
    requires
        pos.within(PLAYER_BOUND as int),
        wall.wf(),
        !clear_of(pos, wall),
    ensures
        ({
            let gx = gap(pos.x as int, wall.position.x as int, wall.half_extents.x as int);
            let gy = gap(pos.y as int, wall.position.y as int, wall.half_extents.y as int);
            let r = pushed_out(pos, wall);
            if gx > gy {
                &&& r.y == pos.y
                &&& abs(r.x - pos.x) == -gx
                &&& gap(r.x as int, wall.position.x as int, wall.half_extents.x as int) == 0
            } else {
                &&& r.x == pos.x
                &&& abs(r.y - pos.y) == -gy
                &&& gap(r.y as int, wall.position.y as int, wall.half_extents.y as int) == 0
            }
        }),
{
}

/// A player that is clear of every wall is not displaced.
pub proof fn lemma_clear_player_stays(pos: Vec2, walls: Seq<Wall>)
    requires
        forall|i: int| 0 <= i < walls.len() ==> clear_of(pos, #[trigger] walls[i]),
    ensures
        pushed_out_of_all(pos, walls) == pos,
    decreases walls.len(),
{
    if walls.len() > 0 {
        lemma_clear_player_stays(pos, walls.drop_last());
    }
}

/// Moving and being pushed out of walls leave a player's handle and its fire
/// latch as they are.
pub proof fn lemma_movement_keeps_the_latch(p: Player, input: u8, dt: u32, walls: Seq<Wall>)
    ensures
        moved(p, input, dt).bullet_ready == p.bullet_ready,
        moved(p, input, dt).handle == p.handle,
        resolved(p, walls).bullet_ready == p.bullet_ready,
        resolved(p, walls).handle == p.handle,
{
}

/// Once a wall has pushed a player out, the two no longer overlap: on some
/// axis they are apart or just touch.
pub proof fn lemma_pushed_out_does_not_overlap(pos: Vec2, wall: Wall)
    requires
        pos.within(PLAYER_BOUND as int),
        wall.wf(),
    ensures
        ({
            let r = pushed_out(pos, wall);
            ||| gap(r.x as int, wall.position.x as int, wall.half_extents.x as int) >= 0
            ||| gap(r.y as int, wall.position.y as int, wall.half_extents.y as int) >= 0
        }),
{
}

} // verus!
