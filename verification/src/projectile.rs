//! The life of a projectile: the fire latch, the shot, the flight, and the end
//! at the arena's edge or in a wall.

use crate::components::{Bullet, BulletReady, Player, Wall};
use crate::geometry::{
    abs, magnitude, scale, scaled, Vec2, FLIGHT_BOUND, LETHAL_RANGE, MAP_LIMIT, PLAYER_BOUND,
};
use crate::input::{fire, pressed, INPUT_FIRE};
use crate::state::{bullets_wf, walls_wf, SimulationState, StateView, REST_REACH};
use vstd::prelude::*;

verus! {

/// The speed of a projectile, in world units per second.
pub const BULLET_SPEED: i64 = 20;

/// No projectile is fired further from the origin than this: the bound that
/// no player leaves, and the distance from a player to its muzzle.
pub const SPAWN_REACH: i64 = PLAYER_BOUND + LETHAL_RANGE;

/// Player `p` after the latch stage: releasing fire opens the latch.
pub open spec fn reloaded(p: Player, input: u8) -> Player {
    Player {
        handle: p.handle,
        position: p.position,
        facing: p.facing,
        distance: p.distance,
        bullet_ready: BulletReady(p.bullet_ready.0 || !pressed(input, INPUT_FIRE)),
    }
}

/// Player `p` fires under `input`: fire is held and the latch is open.
pub open spec fn fires(p: Player, input: u8) -> bool {
    pressed(input, INPUT_FIRE) && p.bullet_ready.0
}

/// The projectile that player `p` fires: one player radius and one projectile
/// radius ahead of the player, travelling the way the player faces.
pub open spec fn muzzle(p: Player) -> Bullet {
    Bullet {
        position: Vec2 {
            x: (p.position.x + scale(p.facing.0.x as int, LETHAL_RANGE as int)) as i64,
            y: (p.position.y + scale(p.facing.0.y as int, LETHAL_RANGE as int)) as i64,
        },
        direction: p.facing,
    }
}

/// Player `p` after the firing stage: a shot closes the latch.
pub open spec fn after_shot(p: Player, input: u8) -> Player {
    if fires(p, input) {
        Player {
            handle: p.handle,
            position: p.position,
            facing: p.facing,
            distance: p.distance,
            bullet_ready: BulletReady(false),
        }
    } else {
        p
    }
}

/// The projectiles that the player in `slot` fires under `input`: one or none.
pub open spec fn shots(slot: Option<Player>, input: u8) -> Seq<Bullet> {
    match slot {
        Some(p) => if fires(p, input) {
            seq![muzzle(p)]
        } else {
            Seq::empty()
        },
        None => Seq::empty(),
    }
}

/// [`reloaded`] for a slot that may be empty.
pub open spec fn reloaded_slot(slot: Option<Player>, input: u8) -> Option<Player> {
    match slot {
        Some(p) => Some(reloaded(p, input)),
        None => None,
    }
}

/// [`after_shot`] for a slot that may be empty.
pub open spec fn after_shot_slot(slot: Option<Player>, input: u8) -> Option<Player> {
    match slot {
        Some(p) => Some(after_shot(p, input)),
        None => None,
    }
}

/// The world after the latch stage.
pub open spec fn players_reloaded(s: StateView, inputs: [u8; 2]) -> StateView {
    StateView {
        player0: reloaded_slot(s.player0, inputs[0]),
        player1: reloaded_slot(s.player1, inputs[1]),
        ..s
    }
}

/// The world after the firing stage: the new projectiles come last, that of
/// player 0 before that of player 1.
pub open spec fn bullets_fired(s: StateView, inputs: [u8; 2]) -> StateView {
    StateView {
        player0: after_shot_slot(s.player0, inputs[0]),
        player1: after_shot_slot(s.player1, inputs[1]),
        bullets: s.bullets + shots(s.player0, inputs[0]) + shots(s.player1, inputs[1]),
        ..s
    }
}

/// The length of the way that a projectile flies in `dt` microseconds.
pub open spec fn flight(dt: u32) -> int {
    BULLET_SPEED * dt
}

/// Projectile `b` after `dt` microseconds: [`flight`] further along its
/// direction.
pub open spec fn flown(b: Bullet, dt: u32) -> Bullet {
    Bullet {
        position: Vec2 {
            x: (b.position.x + scale(b.direction.0.x as int, flight(dt))) as i64,
            y: (b.position.y + scale(b.direction.0.y as int, flight(dt))) as i64,
        },
        direction: b.direction,
    }
}

/// [`flown`] as a value, to map with.
pub open spec fn flier(dt: u32) -> spec_fn(Bullet) -> Bullet {
    |b: Bullet| flown(b, dt)
}

/// The world after the flight stage.
pub open spec fn bullets_moved(s: StateView, dt: u32) -> StateView {
    StateView { bullets: s.bullets.map_values(flier(dt)), ..s }
}

/// The point `pos` lies strictly inside `wall`.
pub open spec fn inside_wall(pos: Vec2, wall: Wall) -> bool {
    &&& abs(wall.position.x - pos.x) - wall.half_extents.x < 0
    &&& abs(wall.position.y - pos.y) - wall.half_extents.y < 0
}

/// Projectile `b` goes on: it is strictly inside the arena, so that one on
/// the edge is out, and strictly inside no wall.
pub open spec fn in_play(b: Bullet, walls: Seq<Wall>) -> bool {
    &&& b.position.inside_arena()
    &&& forall|i: int| 0 <= i < walls.len() ==> !inside_wall(b.position, #[trigger] walls[i])
}

/// [`in_play`] as a value, to filter with.
pub open spec fn survivor(walls: Seq<Wall>) -> spec_fn(Bullet) -> bool {
    |b: Bullet| in_play(b, walls)
}

/// The world after the destruction stage: the projectiles that go on, in
/// their order.
pub open spec fn bullets_culled(s: StateView) -> StateView {
    StateView { bullets: s.bullets.filter(survivor(s.walls)), ..s }
}

/// Opens the latch of each player that does not hold fire: the third stage of
/// a frame.
pub fn reload_bullet(state: &mut SimulationState, inputs: [u8; 2])
    ensures
        final(state)@ == players_reloaded(old(state)@, inputs),
{
    if let Some(p) = state.player0 {
        if !fire(inputs[0]) {
            state.player0 = Some(
                Player {
                    handle: p.handle,
                    position: p.position,
                    facing: p.facing,
                    distance: p.distance,
                    bullet_ready: BulletReady(true),
                },
            );
        }
    }
    if let Some(p) = state.player1 {
        if !fire(inputs[1]) {
            state.player1 = Some(
                Player {
                    handle: p.handle,
                    position: p.position,
                    facing: p.facing,
                    distance: p.distance,
                    bullet_ready: BulletReady(true),
                },
            );
        }
    }
}

/// The projectile that `p` fires.
pub fn spawn_bullet(p: &Player) -> (b: Bullet)
    requires
        p.position.within(SPAWN_REACH - LETHAL_RANGE),
        p.facing.wf(),
    ensures
        b == muzzle(*p),
        b.wf(SPAWN_REACH as int),
{
    Bullet {
        position: Vec2 {
            x: p.position.x + scaled(p.facing.0.x, LETHAL_RANGE),
            y: p.position.y + scaled(p.facing.0.y, LETHAL_RANGE),
        },
        direction: p.facing,
    }
}

/// Lets each player fire that holds fire with an open latch, and closes its
/// latch: the fourth stage of a frame.
pub fn fire_bullets(state: &mut SimulationState, inputs: [u8; 2])
    requires
        old(state)@.players_wf(),
    ensures
        final(state)@ == bullets_fired(old(state)@, inputs),
        final(state)@.players_wf(),
        forall|reach: int|
            reach >= SPAWN_REACH && bullets_wf(old(state)@.bullets, reach) ==> bullets_wf(
                final(state)@.bullets,
                reach,
            ),
{
    if let Some(p) = state.player0 {
        if fire(inputs[0]) && p.bullet_ready.0 {
            let b = spawn_bullet(&p);
            state.bullets.push(b);
            state.player0 = Some(
                Player {
                    handle: p.handle,
                    position: p.position,
                    facing: p.facing,
                    distance: p.distance,
                    bullet_ready: BulletReady(false),
                },
            );
        }
    }
    assert(state@.bullets =~= old(state)@.bullets + shots(old(state)@.player0, inputs[0]));
    let ghost mid = state@.bullets;
    if let Some(p) = state.player1 {
        if fire(inputs[1]) && p.bullet_ready.0 {
            let b = spawn_bullet(&p);
            state.bullets.push(b);
            state.player1 = Some(
                Player {
                    handle: p.handle,
                    position: p.position,
                    facing: p.facing,
                    distance: p.distance,
                    bullet_ready: BulletReady(false),
                },
            );
        }
    }
    assert(state@.bullets =~= mid + shots(old(state)@.player1, inputs[1]));
}

/// Moves one projectile for a frame of `dt` microseconds.
pub fn fly(b: &Bullet, dt: u32) -> (r: Bullet)
    requires
        b.wf(SPAWN_REACH as int),
    ensures
        r == flown(*b, dt),
        r.wf(FLIGHT_BOUND as int),
{
    let length: i64 = BULLET_SPEED * (dt as i64);
    Bullet {
        position: Vec2 {
            x: b.position.x + scaled(b.direction.0.x, length),
            y: b.position.y + scaled(b.direction.0.y, length),
        },
        direction: b.direction,
    }
}

/// Moves every projectile along its direction: the fifth stage of a frame.
pub fn move_bullet(state: &mut SimulationState, dt: u32)
    requires
        bullets_wf(old(state)@.bullets, SPAWN_REACH as int),
    ensures
        final(state)@ == bullets_moved(old(state)@, dt),
        bullets_wf(final(state)@.bullets, FLIGHT_BOUND as int),
{
    let mut out: Vec<Bullet> = Vec::new();
    let mut i: usize = 0;
    while i < state.bullets.len()
        invariant
            i <= state.bullets.len(),
            state@ == old(state)@,
            bullets_wf(state@.bullets, SPAWN_REACH as int),
            out@.len() == i,
            forall|k: int| 0 <= k < i ==> #[trigger] out@[k] == flown(state@.bullets[k], dt),
            bullets_wf(out@, FLIGHT_BOUND as int),
        decreases state.bullets.len() - i,
    {
        let b = fly(&state.bullets[i], dt);
        out.push(b);
        i = i + 1;
    }
    assert(out@ =~= old(state)@.bullets.map_values(flier(dt)));
    state.bullets = out;
}

/// Whether `pos` lies strictly inside `wall`.
pub fn is_inside_wall(pos: &Vec2, wall: &Wall) -> (b: bool)
    requires
        pos.within(FLIGHT_BOUND as int),
        wall.wf(),
    ensures
        b == inside_wall(*pos, *wall),
{
    let dx: i64 = magnitude(wall.position.x - pos.x);
    let dy: i64 = magnitude(wall.position.y - pos.y);
    dx - wall.half_extents.x < 0 && dy - wall.half_extents.y < 0
}

/// Whether projectile `b` goes on. The arena's bounds are looked at first,
/// the walls only for a projectile inside them, up to the first that holds it.
pub fn is_in_play(b: &Bullet, walls: &Vec<Wall>) -> (r: bool)
    requires
        b.position.within(FLIGHT_BOUND as int),
        walls_wf(walls@),
    ensures
        r == in_play(*b, walls@),
{
    if magnitude(b.position.x) >= MAP_LIMIT || magnitude(b.position.y) >= MAP_LIMIT {
        return false;
    }
    let mut i: usize = 0;
    while i < walls.len()
        invariant
            i <= walls.len(),
            walls_wf(walls@),
            b.position.within(FLIGHT_BOUND as int),
            forall|k: int| 0 <= k < i ==> !inside_wall(b.position, #[trigger] walls@[k]),
        decreases walls.len() - i,
    {
        if is_inside_wall(&b.position, &walls[i]) {
            return false;
        }
        i = i + 1;
    }
    true
}

/// Destroys every projectile that has reached the arena's edge or entered a
/// wall: the sixth stage of a frame.
pub fn bullet_wall_collisions(state: &mut SimulationState)
    requires
        bullets_wf(old(state)@.bullets, FLIGHT_BOUND as int),
        walls_wf(old(state)@.walls),
    ensures
        final(state)@ == bullets_culled(old(state)@),
        bullets_wf(final(state)@.bullets, REST_REACH as int),
        forall|i: int|
            0 <= i < final(state)@.bullets.len() ==> in_play(
                #[trigger] final(state)@.bullets[i],
                final(state)@.walls,
            ),
{
    let mut out: Vec<Bullet> = Vec::new();
    let mut i: usize = 0;
    while i < state.bullets.len()
        invariant
            i <= state.bullets.len(),
            state@ == old(state)@,
            bullets_wf(state@.bullets, FLIGHT_BOUND as int),
            walls_wf(state@.walls),
            out@ == state@.bullets.take(i as int).filter(survivor(state@.walls)),
            bullets_wf(out@, REST_REACH as int),
            forall|k: int| 0 <= k < out@.len() ==> in_play(#[trigger] out@[k], state@.walls),
        decreases state.bullets.len() - i,
    {
        proof {
            reveal(Seq::filter);
            assert(state@.bullets.take(i + 1).drop_last() == state@.bullets.take(i as int));
        }
        let b = state.bullets[i];
        if is_in_play(&b, &state.walls) {
            out.push(b);
        }
        i = i + 1;
    }
    assert(state@.bullets.take(i as int) == state@.bullets);
    state.bullets = out;
}

/// Player `p` after the two latch stages of one frame.
pub open spec fn triggered(p: Player, input: u8) -> Player {
    after_shot(reloaded(p, input), input)
}

/// Player `p` fires in a frame with `input`: after the latch stage it holds
/// fire with an open latch.
pub open spec fn shoots(p: Player, input: u8) -> bool {
    fires(reloaded(p, input), input)
}

/// Player `p` after the latch stages of the frames `inputs`.
pub open spec fn after_frames(p: Player, inputs: Seq<u8>) -> Player
    decreases inputs.len(),
{
    if inputs.len() == 0 {
        p
    } else {
        triggered(after_frames(p, inputs.drop_last()), inputs.last())
    }
}

/// The number of projectiles that player `p` fires over the frames `inputs`.
pub open spec fn shots_fired(p: Player, inputs: Seq<u8>) -> nat
    decreases inputs.len(),
{
    if inputs.len() == 0 {
        0
    } else {
        let before = shots_fired(p, inputs.drop_last());
        if shoots(after_frames(p, inputs.drop_last()), inputs.last()) {
            before + 1
        } else {
            before
        }
    }
}

/// One frame of the latch: a player fires in a frame exactly if it holds fire
/// and its latch was open, and its latch is open afterwards exactly if it did
/// not hold fire. So a closed latch under held fire gives no projectile.
pub proof fn lemma_latch_frame(p: Player, input: u8)
    ensures
        shoots(p, input) == (pressed(input, INPUT_FIRE) && p.bullet_ready.0),
        triggered(p, input).bullet_ready.0 == !pressed(input, INPUT_FIRE),
        !p.bullet_ready.0 && pressed(input, INPUT_FIRE) ==> shots(
            Some(reloaded(p, input)),
            input,
        ) == Seq::<Bullet>::empty(),
{
}

/// Fire held without a break gives one projectile if the latch was open, and
/// none if it was closed, however long it is held; the latch is closed
/// afterwards.
pub proof fn lemma_held_fire_shoots_once(p: Player, inputs: Seq<u8>)
    requires
        inputs.len() > 0,
        forall|i: int| 0 <= i < inputs.len() ==> pressed(#[trigger] inputs[i], INPUT_FIRE),
    ensures
        shots_fired(p, inputs) == if p.bullet_ready.0 {
            1nat
        } else {
            0nat
        },
        !after_frames(p, inputs).bullet_ready.0,
    decreases inputs.len(),
{
    if inputs.len() > 1 {
        lemma_held_fire_shoots_once(p, inputs.drop_last());
    } else {
        assert(shots_fired(p, inputs.drop_last()) == 0);
    }
}

/// Frames without fire give no projectile and leave the latch open.
pub proof fn lemma_released_fire_reloads(p: Player, inputs: Seq<u8>)
    requires
        inputs.len() > 0,
        forall|i: int| 0 <= i < inputs.len() ==> !pressed(#[trigger] inputs[i], INPUT_FIRE),
    ensures
        shots_fired(p, inputs) == 0,
        after_frames(p, inputs).bullet_ready.0,
    decreases inputs.len(),
{
    if inputs.len() > 1 {
        lemma_released_fire_reloads(p, inputs.drop_last());
    } else {
        assert(shots_fired(p, inputs.drop_last()) == 0);
    }
}

/// The frames `first` followed by the frames `then`: the projectiles add up,
/// and `then` starts with the player as `first` has left it.
pub proof fn lemma_shots_add_up(p: Player, first: Seq<u8>, then: Seq<u8>)
    ensures
        shots_fired(p, first + then) == shots_fired(p, first) + shots_fired(
            after_frames(p, first),
            then,
        ),
        after_frames(p, first + then) == after_frames(after_frames(p, first), then),
    decreases then.len(),
{
    if then.len() > 0 {
        lemma_shots_add_up(p, first, then.drop_last());
        assert((first + then).drop_last() =~= first + then.drop_last());
    }
}

/// One cycle of holding fire and releasing it, begun with an open latch,
/// gives exactly one projectile and ends with an open latch, however long
/// fire is held and however long it is released.
pub proof fn lemma_fire_cycle(p: Player, held: Seq<u8>, released: Seq<u8>)
    requires
        p.bullet_ready.0,
        held.len() > 0,
        released.len() > 0,
        forall|i: int| 0 <= i < held.len() ==> pressed(#[trigger] held[i], INPUT_FIRE),
        forall|i: int| 0 <= i < released.len() ==> !pressed(#[trigger] released[i], INPUT_FIRE),
    ensures
        shots_fired(p, held + released) == 1,
        after_frames(p, held + released).bullet_ready.0,
{
    lemma_shots_add_up(p, held, released);
    lemma_held_fire_shoots_once(p, held);
    lemma_released_fire_reloads(after_frames(p, held), released);
}

/// A projectile on the arena's edge does not go on: the bounds are closed.
pub proof fn lemma_edge_is_out(b: Bullet, walls: Seq<Wall>)
    requires
        abs(b.position.x as int) >= MAP_LIMIT || abs(b.position.y as int) >= MAP_LIMIT,
    ensures
        !in_play(b, walls),
{
}

} // verus!
